use vstd::prelude::*;

verus! {

/// Colour of a cell; each piece kind has a colour of its own.
#[derive(Clone, Copy, Debug, PartialEq, Eq, Structural)]
pub enum Color {
    Cyan,
    Blue,
    Orange,
    Green,
    Red,
    Purple,
    Yellow,
}

/// A coloured unit square at lattice point `(x, y)`; `y` grows upward.
#[derive(Clone, Copy, Debug, PartialEq, Eq, Structural)]
pub struct Block {
    color: Color,
    x: i32,
    y: i32,
}

/// The mathematical value of a block, with unbounded coordinates.
pub struct BlockView {
    pub color: Color,
    pub x: int,
    pub y: int,
}

/// A unit step on the lattice.
#[derive(Clone, Copy, Debug, PartialEq, Eq, Structural)]
pub enum Direction {
    Left,
    Up,
    Right,
    Down,
}

/// The steps a piece may be asked to take.
#[derive(Clone, Copy, Debug, PartialEq, Eq, Structural)]
pub enum MoveDirection {
    Left,
    Right,
    Down,
}

/// Counter-clockwise (`Left`) or clockwise (`Right`) quarter turn.
#[derive(Clone, Copy, Debug, PartialEq, Eq, Structural)]
pub enum RotateDirection {
    Left,
    Right,
}

/// `b` moved one cell towards `dir`.
pub open spec fn moved(b: BlockView, dir: Direction) -> BlockView {
    match dir {
        Direction::Left => BlockView { x: b.x - 1, ..b },
        Direction::Right => BlockView { x: b.x + 1, ..b },
        Direction::Down => BlockView { y: b.y - 1, ..b },
        Direction::Up => BlockView { y: b.y + 1, ..b },
    }
}

/// Both coordinates lie in `[i32::MIN + margin, i32::MAX - margin]`.
pub open spec fn fits_with(b: BlockView, margin: int) -> bool {
    &&& i32::MIN + margin <= b.x <= i32::MAX - margin
    &&& i32::MIN + margin <= b.y <= i32::MAX - margin
}

/// The values of a sequence of blocks.
pub open spec fn views(bs: Seq<Block>) -> Seq<BlockView> {
    bs.map_values(|b: Block| b@)
}

impl View for Block {
    type V = BlockView;

    closed spec fn view(&self) -> BlockView {
        BlockView { color: self.color, x: self.x as int, y: self.y as int }
    }
}

impl Block {
    pub fn new(color: Color, x: i32, y: i32) -> (r: Block)
        ensures
            r@ == (BlockView { color, x: x as int, y: y as int }),
    {
        Block { color, x, y }
    }

    /// The block one cell further towards `dir`.
    pub fn move_(&self, dir: Direction) -> (r: Block)
        requires
            fits_with(moved(self@, dir), 0),
        ensures
            r@ == moved(self@, dir),
    {
        let color = self.color;
        let (x, y) = match dir {
            Direction::Left => (self.x - 1, self.y),
            Direction::Right => (self.x + 1, self.y),
            Direction::Down => (self.x, self.y - 1),
            Direction::Up => (self.x, self.y + 1),
        };
        Block { color, x, y }
    }

    pub fn color(&self) -> (r: &Color)
        ensures
            *r == self@.color,
    {
        &self.color
    }

    pub fn x(&self) -> (r: &i32)
        ensures
            *r == self@.x,
    {
        &self.x
    }

    pub fn y(&self) -> (r: &i32)
        ensures
            *r == self@.y,
    {
        &self.y
    }
}

/// Side of a square cell on the canvas and in the sprite sheet, in pixels.
pub const CELL_PIXELS: i64 = 32;

/// The highest visible row; it is drawn at the top of the canvas.
pub const TOP_ROW: i64 = 19;

/// Position of each colour's tile in the sprite sheet, counted in tiles.
pub open spec fn tile_of(c: Color) -> int {
    match c {
        Color::Cyan => 1,
        Color::Blue => 2,
        Color::Orange => 3,
        Color::Green => 4,
        Color::Red => 5,
        Color::Purple => 6,
        Color::Yellow => 7,
    }
}

impl Block {
    /// Left edge of the block's tile in the sprite sheet, in pixels.
    pub fn idx_on_image(&self) -> (r: i64)
        ensures
            r == CELL_PIXELS * tile_of(self@.color),
    {
        let tile: i64 = match self.color {
            Color::Cyan => 1,
            Color::Blue => 2,
            Color::Orange => 3,
            Color::Green => 4,
            Color::Red => 5,
            Color::Purple => 6,
            Color::Yellow => 7,
        };
        CELL_PIXELS * tile
    }

    /// Left edge of the block on the canvas, in pixels.
    pub fn x_idx_on_canvas(&self) -> (r: i64)
        ensures
            r == self@.x * CELL_PIXELS,
    {
        self.x as i64 * CELL_PIXELS
    }

    /// Top edge of the block on the canvas, in pixels; row `TOP_ROW` is drawn
    /// at the top.
    pub fn y_idx_on_canvas(&self) -> (r: i64)
        ensures
            r == (TOP_ROW - self@.y) * CELL_PIXELS,
    {
        (TOP_ROW - self.y as i64) * CELL_PIXELS
    }
}

impl From<MoveDirection> for Direction {
    fn from(dir: MoveDirection) -> (r: Direction) {
        match dir {
            MoveDirection::Left => Direction::Left,
            MoveDirection::Right => Direction::Right,
            MoveDirection::Down => Direction::Down,
        }
    }
}

impl vstd::std_specs::convert::FromSpecImpl<MoveDirection> for Direction {
    open spec fn obeys_from_spec() -> bool {
        true
    }

    open spec fn from_spec(dir: MoveDirection) -> Direction {
        step_of(dir)
    }
}

/// The lattice step that a move takes.
pub open spec fn step_of(dir: MoveDirection) -> Direction {
    match dir {
        MoveDirection::Left => Direction::Left,
        MoveDirection::Right => Direction::Right,
        MoveDirection::Down => Direction::Down,
    }
}

} // verus!
