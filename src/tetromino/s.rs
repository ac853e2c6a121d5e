use vstd::prelude::*;

use crate::shared::{Block, Direction, MoveDirection, RotateDirection};
use crate::tetromino::{place, small, widen, Kind, PieceView, Tetromino, TetrominoDirection};

verus! {

/// Offsets of the S piece's cells from its axis.
pub open spec fn shape(dir: TetrominoDirection) -> Seq<(int, int)> {
    match dir {
        TetrominoDirection::Left => seq![(-1, -1), (0, -1), (0, 0), (1, 0)],
        TetrominoDirection::Up => seq![(-1, 0), (-1, 1), (0, -1), (0, 0)],
        TetrominoDirection::Right => seq![(-1, 0), (0, 0), (0, 1), (1, 1)],
        TetrominoDirection::Down => seq![(0, 0), (0, 1), (1, -1), (1, 0)],
    }
}

fn cells(dir: TetrominoDirection) -> (r: [(i32, i32); 4])
    ensures
        widen(r@) == shape(dir),
        small(widen(r@)),
{
    let r = match dir {
        TetrominoDirection::Left => [(-1, -1), (0, -1), (0, 0), (1, 0)],
        TetrominoDirection::Up => [(-1, 0), (-1, 1), (0, -1), (0, 0)],
        TetrominoDirection::Right => [(-1, 0), (0, 0), (0, 1), (1, 1)],
        TetrominoDirection::Down => [(0, 0), (0, 1), (1, -1), (1, 0)],
    };
    assert(widen(r@) =~= shape(dir));
    r
}

/// The S piece.
#[derive(Clone, Copy, Debug, PartialEq, Eq, Structural)]
pub struct S {
    dir: TetrominoDirection,
    axis: Block,
}

impl View for S {
    type V = PieceView;

    closed spec fn view(&self) -> PieceView {
        PieceView { kind: Kind::S, dir: self.dir, axis: self.axis@ }
    }
}

impl Tetromino for S {
    open spec fn kind() -> Kind {
        Kind::S
    }

    fn new(dir: TetrominoDirection, axis: Block) -> (r: S) {
        S { dir, axis }
    }

    fn move_(&mut self, move_dir: MoveDirection) {
        let dir = Direction::from(move_dir);
        let axis = self.axis().move_(dir);
        self.set_axis(axis);
    }

    fn rotate(&mut self, rotate_dir: RotateDirection) {
        let dir = self.dir().rotate(rotate_dir);
        self.set_dir(dir);
    }

    fn dry_move(&self, move_dir: MoveDirection) -> (r: Vec<Block>) {
        let dir = Direction::from(move_dir);
        Self::new(*self.dir(), self.axis().move_(dir)).blocks()
    }

    fn dry_rotate(&self, rotate_dir: RotateDirection) -> (r: Vec<Block>) {
        let dir = self.dir().rotate(rotate_dir);
        Self::new(dir, *self.axis()).blocks()
    }

    fn blocks(&self) -> (r: Vec<Block>) {
        place(self.axis(), cells(*self.dir()))
    }
}

impl S {
    pub fn dir(&self) -> (r: &TetrominoDirection)
        ensures
            *r == self@.dir,
    {
        &self.dir
    }

    pub fn axis(&self) -> (r: &Block)
        ensures
            r@ == self@.axis,
    {
        &self.axis
    }

    pub fn set_dir(&mut self, dir: TetrominoDirection)
        ensures
            final(self)@ == (PieceView { dir, ..old(self)@ }),
    {
        self.dir = dir;
    }

    pub fn set_axis(&mut self, axis: Block)
        ensures
            final(self)@ == (PieceView { axis: axis@, ..old(self)@ }),
    {
        self.axis = axis;
    }
}

} // verus!
