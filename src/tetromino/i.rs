use vstd::prelude::*;

use crate::shared::{Block, Direction, MoveDirection, RotateDirection};
use crate::tetromino::{
    has_room, place, rotated, small, widen, Kind, PieceView, Tetromino, TetrominoDirection,
};

verus! {

/// Offsets of the I piece's cells from its axis.
pub open spec fn shape(dir: TetrominoDirection) -> Seq<(int, int)> {
    match dir {
        TetrominoDirection::Left => seq![(-1, 0), (0, 0), (1, 0), (2, 0)],
        TetrominoDirection::Up => seq![(0, -2), (0, -1), (0, 0), (0, 1)],
        TetrominoDirection::Right => seq![(-2, 0), (-1, 0), (0, 0), (1, 0)],
        TetrominoDirection::Down => seq![(0, -1), (0, 0), (0, 1), (0, 2)],
    }
}

fn cells(dir: TetrominoDirection) -> (r: [(i32, i32); 4])
    ensures
        widen(r@) == shape(dir),
        small(widen(r@)),
{
    let r = match dir {
        TetrominoDirection::Left => [(-1, 0), (0, 0), (1, 0), (2, 0)],
        TetrominoDirection::Up => [(0, -2), (0, -1), (0, 0), (0, 1)],
        TetrominoDirection::Right => [(-2, 0), (-1, 0), (0, 0), (1, 0)],
        TetrominoDirection::Down => [(0, -1), (0, 0), (0, 1), (0, 2)],
    };
    assert(widen(r@) =~= shape(dir));
    r
}

/// The I piece, a bar of four cells.
#[derive(Clone, Copy, Debug, PartialEq, Eq, Structural)]
pub struct I {
    dir: TetrominoDirection,
    axis: Block,
}

impl View for I {
    type V = PieceView;

    closed spec fn view(&self) -> PieceView {
        PieceView { kind: Kind::I, dir: self.dir, axis: self.axis@ }
    }
}

impl Tetromino for I {
    open spec fn kind() -> Kind {
        Kind::I
    }

    fn new(dir: TetrominoDirection, axis: Block) -> (r: I) {
        I { dir, axis }
    }

    fn move_(&mut self, move_dir: MoveDirection) {
        let dir = Direction::from(move_dir);
        let axis = self.axis().move_(dir);
        self.set_axis(axis);
    }

    fn rotate(&mut self, rotate_dir: RotateDirection) {
        let axis = self.rotate_axis(rotate_dir);
        let dir = self.dir().rotate(rotate_dir);
        self.set_dir(dir);
        self.set_axis(axis);
    }

    fn dry_move(&self, move_dir: MoveDirection) -> (r: Vec<Block>) {
        let dir = Direction::from(move_dir);
        Self::new(*self.dir(), self.axis().move_(dir)).blocks()
    }

    fn dry_rotate(&self, rotate_dir: RotateDirection) -> (r: Vec<Block>) {
        Self::new(self.dir().rotate(rotate_dir), self.rotate_axis(rotate_dir)).blocks()
    }

    fn blocks(&self) -> (r: Vec<Block>) {
        place(self.axis(), cells(*self.dir()))
    }
}

impl I {
    pub fn dir(&self) -> (r: &TetrominoDirection)
        ensures
            *r == self@.dir,
    {
        &self.dir
    }

    pub fn axis(&self) -> (r: &Block)
        ensures
            r@ == self@.axis,
    {
        &self.axis
    }

    pub fn set_dir(&mut self, dir: TetrominoDirection)
        ensures
            final(self)@ == (PieceView { dir, ..old(self)@ }),
    {
        self.dir = dir;
    }

    pub fn set_axis(&mut self, axis: Block)
        ensures
            final(self)@ == (PieceView { axis: axis@, ..old(self)@ }),
    {
        self.axis = axis;
    }

    /// Where the axis goes when the bar turns, so that it turns about its middle.
    pub fn rotate_axis(&self, rotate_dir: RotateDirection) -> (r: Block)
        requires
            has_room(self@),
        ensures
            r@ == rotated(self@, rotate_dir).axis,
    {
        match rotate_dir {
            RotateDirection::Left => match self.dir() {
                TetrominoDirection::Left => self.axis().move_(Direction::Right),
                TetrominoDirection::Up => self.axis().move_(Direction::Down),
                TetrominoDirection::Right => self.axis().move_(Direction::Left),
                TetrominoDirection::Down => self.axis().move_(Direction::Up),
            },
            RotateDirection::Right => match self.dir() {
                TetrominoDirection::Left => self.axis().move_(Direction::Up),
                TetrominoDirection::Up => self.axis().move_(Direction::Right),
                TetrominoDirection::Right => self.axis().move_(Direction::Down),
                TetrominoDirection::Down => self.axis().move_(Direction::Left),
            },
        }
    }
}

} // verus!
