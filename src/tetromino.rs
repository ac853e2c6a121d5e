pub mod i;
pub mod j;
pub mod l;
pub mod o;
pub mod s;
pub mod t;
pub mod z;

use vstd::prelude::*;

use crate::shared::{
    fits_with, moved, step_of, views, Block, BlockView, Direction, MoveDirection, RotateDirection,
};

verus! {

/// The seven piece kinds.
#[derive(Clone, Copy, Debug, PartialEq, Eq, Structural)]
pub enum Kind {
    I,
    J,
    L,
    O,
    S,
    T,
    Z,
}

/// Orientation of a piece; it selects the offset table in use.
#[derive(Clone, Copy, Debug, PartialEq, Eq, Structural)]
pub enum TetrominoDirection {
    Left,
    Up,
    Right,
    Down,
}

/// The mathematical value of a piece: its kind, orientation and axis block.
pub struct PieceView {
    pub kind: Kind,
    pub dir: TetrominoDirection,
    pub axis: BlockView,
}

/// Orientation after a quarter turn.
pub open spec fn turned(dir: TetrominoDirection, rot: RotateDirection) -> TetrominoDirection {
    match rot {
        RotateDirection::Left => match dir {
            TetrominoDirection::Left => TetrominoDirection::Down,
            TetrominoDirection::Down => TetrominoDirection::Right,
            TetrominoDirection::Right => TetrominoDirection::Up,
            TetrominoDirection::Up => TetrominoDirection::Left,
        },
        RotateDirection::Right => match dir {
            TetrominoDirection::Left => TetrominoDirection::Up,
            TetrominoDirection::Down => TetrominoDirection::Left,
            TetrominoDirection::Right => TetrominoDirection::Down,
            TetrominoDirection::Up => TetrominoDirection::Right,
        },
    }
}

/// The step by which the I piece's axis moves when it turns, so that the bar
/// turns about its middle.
pub open spec fn bar_shift(dir: TetrominoDirection, rot: RotateDirection) -> Direction {
    match rot {
        RotateDirection::Left => match dir {
            TetrominoDirection::Left => Direction::Right,
            TetrominoDirection::Up => Direction::Down,
            TetrominoDirection::Right => Direction::Left,
            TetrominoDirection::Down => Direction::Up,
        },
        RotateDirection::Right => match dir {
            TetrominoDirection::Left => Direction::Up,
            TetrominoDirection::Up => Direction::Right,
            TetrominoDirection::Right => Direction::Down,
            TetrominoDirection::Down => Direction::Left,
        },
    }
}

/// Offsets of the four cells of a piece from its axis, in block order.
pub open spec fn offsets(kind: Kind, dir: TetrominoDirection) -> Seq<(int, int)> {
    match kind {
        Kind::I => i::shape(dir),
        Kind::J => j::shape(dir),
        Kind::L => l::shape(dir),
        Kind::O => o::shape(dir),
        Kind::S => s::shape(dir),
        Kind::T => t::shape(dir),
        Kind::Z => z::shape(dir),
    }
}

/// The block at offset `o` from `axis`, in the axis's colour.
pub open spec fn at(axis: BlockView, o: (int, int)) -> BlockView {
    BlockView { color: axis.color, x: axis.x + o.0, y: axis.y + o.1 }
}

/// The four blocks that a piece covers.
pub open spec fn blocks_of(p: PieceView) -> Seq<BlockView> {
    offsets(p.kind, p.dir).map_values(|o: (int, int)| at(p.axis, o))
}

/// The piece moved one cell towards `dir`.
pub open spec fn translated(p: PieceView, dir: MoveDirection) -> PieceView {
    PieceView { axis: moved(p.axis, step_of(dir)), ..p }
}

/// The piece after a quarter turn; the I piece's axis also moves one cell.
pub open spec fn rotated(p: PieceView, rot: RotateDirection) -> PieceView {
    PieceView {
        dir: turned(p.dir, rot),
        axis: if p.kind == Kind::I {
            moved(p.axis, bar_shift(p.dir, rot))
        } else {
            p.axis
        },
        ..p
    }
}

/// The axis is at least three cells from the limits of `i32`, so that every
/// block of the piece, and of the piece one move or turn away, is representable.
pub open spec fn has_room(p: PieceView) -> bool {
    fits_with(p.axis, 3)
}

/// The offsets as mathematical pairs.
pub open spec fn widen(cells: Seq<(i32, i32)>) -> Seq<(int, int)> {
    cells.map_values(|c: (i32, i32)| (c.0 as int, c.1 as int))
}

/// Each offset has both coordinates in `[-2, 2]`.
pub open spec fn small(cells: Seq<(int, int)>) -> bool {
    forall|k: int| 0 <= k < cells.len() ==> -2 <= #[trigger] cells[k].0 <= 2 && -2 <= cells[k].1 <= 2
}

/// A piece type: seven of them, one per kind, share these operations.
pub trait Tetromino: Sized + View<V = PieceView> {
    /// The kind of every piece of this type.
    spec fn kind() -> Kind;

    fn new(dir: TetrominoDirection, axis: Block) -> (r: Self)
        ensures
            r@ == (PieceView { kind: Self::kind(), dir, axis: axis@ }),
    ;

    /// Moves the piece one cell.
    fn move_(&mut self, dir: MoveDirection)
        requires
            has_room(old(self)@),
        ensures
            final(self)@ == translated(old(self)@, dir),
    ;

    /// Turns the piece a quarter.
    fn rotate(&mut self, dir: RotateDirection)
        requires
            has_room(old(self)@),
        ensures
            final(self)@ == rotated(old(self)@, dir),
    ;

    /// The blocks the piece would cover after `move_(dir)`.
    fn dry_move(&self, dir: MoveDirection) -> (r: Vec<Block>)
        requires
            has_room(self@),
        ensures
            views(r@) == blocks_of(translated(self@, dir)),
    ;

    /// The blocks the piece would cover after `rotate(dir)`.
    fn dry_rotate(&self, dir: RotateDirection) -> (r: Vec<Block>)
        requires
            has_room(self@),
        ensures
            views(r@) == blocks_of(rotated(self@, dir)),
    ;

    /// The four blocks the piece covers.
    fn blocks(&self) -> (r: Vec<Block>)
        requires
            fits_with(self@.axis, 2),
        ensures
            views(r@) == blocks_of(self@),
    ;
}

/// The axis is one of the piece's own blocks.
pub proof fn lemma_axis_covered(p: PieceView)
    ensures
        blocks_of(p).contains(p.axis),
{
    let b = blocks_of(p);
    assert(b[0] == p.axis || b[1] == p.axis || b[2] == p.axis || b[3] == p.axis);
}

/// Moving by `d` and then by `e` returns the axis exactly when `e` undoes `d`:
/// Left and Right undo each other, and no move undoes Down.
pub open spec fn undoes(d: MoveDirection, e: MoveDirection) -> bool {
    ||| d == MoveDirection::Left && e == MoveDirection::Right
    ||| d == MoveDirection::Right && e == MoveDirection::Left
}

/// A move followed by a second move restores the piece's axis if and only if
/// the second undoes the first; kind and orientation never change.
pub proof fn lemma_translation_reversible(p: PieceView, d: MoveDirection, e: MoveDirection)
    ensures
        translated(translated(p, d), e).axis == p.axis <==> undoes(d, e),
        translated(translated(p, d), e).kind == p.kind,
        translated(translated(p, d), e).dir == p.dir,
{
}

/// Four quarter turns the same way give back the piece, hence its blocks.
pub proof fn lemma_four_turns(p: PieceView, rot: RotateDirection)
    ensures
        rotated(rotated(rotated(rotated(p, rot), rot), rot), rot) == p,
        blocks_of(rotated(rotated(rotated(rotated(p, rot), rot), rot), rot)) == blocks_of(p),
{
}

/// A quarter turn one way and then the other gives back the piece, hence its
/// orientation and blocks.
pub proof fn lemma_turn_back(p: PieceView)
    ensures
        rotated(rotated(p, RotateDirection::Left), RotateDirection::Right) == p,
        rotated(rotated(p, RotateDirection::Right), RotateDirection::Left) == p,
{
}

impl TetrominoDirection {
    pub fn rotate(&self, dir: RotateDirection) -> (r: TetrominoDirection)
        ensures
            r == turned(*self, dir),
    {
        match dir {
            RotateDirection::Left => match self {
                TetrominoDirection::Left => TetrominoDirection::Down,
                TetrominoDirection::Down => TetrominoDirection::Right,
                TetrominoDirection::Right => TetrominoDirection::Up,
                TetrominoDirection::Up => TetrominoDirection::Left,
            },
            RotateDirection::Right => match self {
                TetrominoDirection::Left => TetrominoDirection::Up,
                TetrominoDirection::Down => TetrominoDirection::Left,
                TetrominoDirection::Right => TetrominoDirection::Down,
                TetrominoDirection::Up => TetrominoDirection::Right,
            },
        }
    }
}

/// The blocks at the given offsets from `axis`, in the offsets' order.
pub(crate) fn place(axis: &Block, cells: [(i32, i32); 4]) -> (r: Vec<Block>)
    requires
        fits_with(axis@, 2),
        small(widen(cells@)),
    ensures
        views(r@) == widen(cells@).map_values(|o: (int, int)| at(axis@, o)),
{
    let mut r: Vec<Block> = Vec::new();
    let mut k: usize = 0;
    while k < 4
        invariant
            k <= 4,
            fits_with(axis@, 2),
            small(widen(cells@)),
            views(r@) =~= widen(cells@).subrange(0, k as int).map_values(|o: (int, int)| at(axis@, o)),
        decreases 4 - k,
    {
        let (dx, dy) = cells[k];
        let ghost o = widen(cells@)[k as int];
        assert(o == (dx as int, dy as int));
        assert(-2 <= o.0 <= 2 && -2 <= o.1 <= 2);
        let b = Block::new(*axis.color(), *axis.x() + dx, *axis.y() + dy);
        assert(b@ == at(axis@, o));
        let ghost before = r@;
        r.push(b);
        assert(r@ == before.push(b));
        assert(views(r@) =~= views(before).push(b@));
        assert(widen(cells@).subrange(0, k + 1) =~= widen(cells@).subrange(0, k as int).push(o));
        k = k + 1;
    }
    assert(widen(cells@).subrange(0, 4) =~= widen(cells@));
    r
}

} // verus!
