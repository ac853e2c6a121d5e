use vstd::prelude::*;

use crate::field::{
    cell_free, cleared, empty_row, fixed, grid_blocks, is_grid, vacant, Field, Grid, HEIGHT,
};
use crate::piece::Piece;
use crate::shared::{views, Block, MoveDirection, RotateDirection};
use crate::tetromino::{
    blocks_of, has_room, lemma_axis_covered, rotated, translated, PieceView,
};
use crate::tetromino_factory::{
    after_draw, drawn, refilled, spawn_of, FactoryView, TetrominoFactory,
};

verus! {

/// Gravity pulls the piece down one cell every this many ticks.
pub const GRAVITY_PERIOD: u64 = 16;

/// Input is taken on every tick that is a multiple of this.
pub const INPUT_PERIOD: u64 = 4;

/// Whether a game goes on.
#[derive(Clone, Copy, Debug, PartialEq, Eq, Structural)]
pub enum Phase {
    Falling,
    GameOver,
}

/// The keys that act on a game.
#[derive(Clone, Copy, Debug, PartialEq, Eq, Structural)]
pub enum Input {
    Left,
    Right,
    Down,
    RotateLeft,
    RotateRight,
}

/// The mathematical state of a game.
pub struct GameView {
    pub ticks: u64,
    pub field: Grid,
    pub active: PieceView,
    pub factory: FactoryView,
    pub phase: Phase,
}

/// The piece as an input would leave it.
pub open spec fn moved_by(p: PieceView, input: Input) -> PieceView {
    match input {
        Input::Left => translated(p, MoveDirection::Left),
        Input::Right => translated(p, MoveDirection::Right),
        Input::Down => translated(p, MoveDirection::Down),
        Input::RotateLeft => rotated(p, RotateDirection::Left),
        Input::RotateRight => rotated(p, RotateDirection::Right),
    }
}

/// The state after the active piece locks: its blocks are fixed, full rows
/// are cleared and the next piece is drawn; the game is over if the new
/// piece does not fit.
pub open spec fn locked(m: GameView) -> GameView {
    let f = cleared(fixed(m.field, blocks_of(m.active)));
    let next = spawn_of(drawn(m.factory));
    GameView {
        field: f,
        active: next,
        factory: after_draw(m.factory),
        phase: if vacant(f, blocks_of(next)) {
            Phase::Falling
        } else {
            Phase::GameOver
        },
        ..m
    }
}

/// The state after one tick. A finished game does not change. Otherwise the
/// counter advances; on a gravity tick the piece falls one cell if it can,
/// and else locks. A piece that overlaps the stack or the edges cannot lock,
/// and ends the game.
pub open spec fn after_tick(m: GameView) -> GameView {
    let t = m.ticks.wrapping_add(1);
    let m1 = GameView { ticks: t, ..m };
    let down = translated(m.active, MoveDirection::Down);
    if m.phase == Phase::GameOver {
        m
    } else if t % GRAVITY_PERIOD != 0 {
        m1
    } else if vacant(m.field, blocks_of(down)) {
        GameView { active: down, ..m1 }
    } else if !vacant(m.field, blocks_of(m.active)) {
        GameView { phase: Phase::GameOver, ..m1 }
    } else {
        locked(m1)
    }
}

/// The state after an input: on an input tick of a game that goes on, the
/// piece moves or turns if its new blocks are vacant; otherwise nothing
/// changes.
pub open spec fn after_input(m: GameView, input: Input) -> GameView {
    if m.phase == Phase::Falling && m.ticks % INPUT_PERIOD == 0 && vacant(
        m.field,
        blocks_of(moved_by(m.active, input)),
    ) {
        GameView { active: moved_by(m.active, input), ..m }
    } else {
        m
    }
}

/// A game: tick counter, field, active piece, randomizer and phase.
pub struct Game {
    ticks: u64,
    field: Field,
    factory: TetrominoFactory,
    active: Piece,
    phase: Phase,
}

impl View for Game {
    type V = GameView;

    closed spec fn view(&self) -> GameView {
        GameView {
            ticks: self.ticks,
            field: self.field@,
            active: self.active@,
            factory: self.factory@,
            phase: self.phase,
        }
    }
}

/// A piece whose blocks are all vacant lies on the field, so it has room.
proof fn lemma_vacant_has_room(f: Grid, p: PieceView)
    requires
        vacant(f, blocks_of(p)),
    ensures
        has_room(p),
{
    lemma_axis_covered(p);
    let k = choose|k: int| 0 <= k < blocks_of(p).len() && blocks_of(p)[k] == p.axis;
    assert(cell_free(f, blocks_of(p)[k]));
}

impl Game {
    /// The invariant: a well-formed field and an active piece with room.
    pub open spec fn wf(&self) -> bool {
        is_grid(self@.field) && has_room(self@.active)
    }

    /// A new game on an empty field, with a randomizer driven by `seed`.
    pub fn new(seed: u64) -> (r: Game)
        ensures
            r.wf(),
            r@.ticks == 0,
            r@.phase == Phase::Falling,
            r@.field == Seq::new(HEIGHT as nat, |y: int| empty_row()),
            r@.active == spawn_of(drawn(refilled(FactoryView { bag: Seq::empty(), seed }))),
            r@.factory == after_draw(refilled(FactoryView { bag: Seq::empty(), seed })),
    {
        let field = Field::empty();
        let mut factory = TetrominoFactory::with_seed(seed);
        let active = factory.pick_tetromino();
        Game { ticks: 0, field, factory, active, phase: Phase::Falling }
    }

    /// A game in the given position, at tick 0.
    pub fn from_parts(field: Field, active: Piece, factory: TetrominoFactory) -> (r: Game)
        requires
            field.wf(),
            has_room(active@),
        ensures
            r.wf(),
            r@ == (GameView {
                ticks: 0,
                field: field@,
                active: active@,
                factory: factory@,
                phase: Phase::Falling,
            }),
    {
        Game { ticks: 0, field, factory, active, phase: Phase::Falling }
    }

    /// Advances the game by one tick.
    pub fn tick(&mut self)
        requires
            old(self).wf(),
        ensures
            final(self).wf(),
            final(self)@ == after_tick(old(self)@),
    {
        if self.phase == Phase::GameOver {
            return;
        }
        self.ticks = self.ticks.wrapping_add(1);
        if self.ticks % GRAVITY_PERIOD != 0 {
            return;
        }
        let blocks = self.active.dry_move(MoveDirection::Down);
        if self.field.is_vacant(&blocks) {
            proof {
                lemma_vacant_has_room(self.field@, translated(self.active@, MoveDirection::Down));
            }
            self.active.move_(MoveDirection::Down);
            return;
        }
        let current = self.active.blocks();
        if !self.field.is_vacant(&current) {
            self.phase = Phase::GameOver;
            return;
        }
        self.field.fix_blocks(current);
        self.field.clear_blocks();
        self.active = self.factory.pick_tetromino();
        let next = self.active.blocks();
        if !self.field.is_vacant(&next) {
            self.phase = Phase::GameOver;
        }
    }

    /// Applies a key: the piece moves or turns only if the result is vacant.
    pub fn key_event(&mut self, input: Input)
        requires
            old(self).wf(),
        ensures
            final(self).wf(),
            final(self)@ == after_input(old(self)@, input),
    {
        if self.phase == Phase::GameOver || self.ticks % INPUT_PERIOD != 0 {
            return;
        }
        let blocks = match input {
            Input::Left => self.active.dry_move(MoveDirection::Left),
            Input::Right => self.active.dry_move(MoveDirection::Right),
            Input::Down => self.active.dry_move(MoveDirection::Down),
            Input::RotateLeft => self.active.dry_rotate(RotateDirection::Left),
            Input::RotateRight => self.active.dry_rotate(RotateDirection::Right),
        };
        if !self.field.is_vacant(&blocks) {
            return;
        }
        proof {
            lemma_vacant_has_room(self.field@, moved_by(self.active@, input));
        }
        match input {
            Input::Left => self.active.move_(MoveDirection::Left),
            Input::Right => self.active.move_(MoveDirection::Right),
            Input::Down => self.active.move_(MoveDirection::Down),
            Input::RotateLeft => self.active.rotate(RotateDirection::Left),
            Input::RotateRight => self.active.rotate(RotateDirection::Right),
        }
    }

    /// What the host draws: the field's blocks, then the active piece's.
    pub fn render_blocks(&self) -> (r: Vec<Block>)
        requires
            self.wf(),
        ensures
            views(r@) == grid_blocks(self@.field) + blocks_of(self@.active),
    {
        let mut r = self.field.blocks();
        let mut piece = self.active.blocks();
        let ghost (a, b) = (r@, piece@);
        r.append(&mut piece);
        assert(views(r@) =~= views(a) + views(b));
        r
    }

    pub fn is_game_over(&self) -> (r: bool)
        ensures
            r == (self@.phase == Phase::GameOver),
    {
        self.phase == Phase::GameOver
    }

    pub fn field(&self) -> (r: &Field)
        ensures
            r@ == self@.field,
    {
        &self.field
    }

    pub fn active(&self) -> (r: &Piece)
        ensures
            r@ == self@.active,
    {
        &self.active
    }
}

} // verus!
