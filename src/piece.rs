use vstd::prelude::*;

use crate::shared::{fits_with, views, Block, MoveDirection, RotateDirection};
use crate::tetromino::i::I;
use crate::tetromino::j::J;
use crate::tetromino::l::L;
use crate::tetromino::o::O;
use crate::tetromino::s::S;
use crate::tetromino::t::T;
use crate::tetromino::z::Z;
use crate::tetromino::{blocks_of, has_room, rotated, translated, PieceView, Tetromino};

verus! {

/// A piece of any kind, tagged by its kind.
#[derive(Clone, Copy, Debug, PartialEq, Eq, Structural)]
pub enum Piece {
    I(I),
    J(J),
    L(L),
    O(O),
    S(S),
    T(T),
    Z(Z),
}

impl View for Piece {
    type V = PieceView;

    open spec fn view(&self) -> PieceView {
        match self {
            Piece::I(p) => p@,
            Piece::J(p) => p@,
            Piece::L(p) => p@,
            Piece::O(p) => p@,
            Piece::S(p) => p@,
            Piece::T(p) => p@,
            Piece::Z(p) => p@,
        }
    }
}

impl Piece {
    /// Moves the piece one cell.
    pub fn move_(&mut self, dir: MoveDirection)
        requires
            has_room(old(self)@),
        ensures
            final(self)@ == translated(old(self)@, dir),
    {
        match self {
            Piece::I(p) => p.move_(dir),
            Piece::J(p) => p.move_(dir),
            Piece::L(p) => p.move_(dir),
            Piece::O(p) => p.move_(dir),
            Piece::S(p) => p.move_(dir),
            Piece::T(p) => p.move_(dir),
            Piece::Z(p) => p.move_(dir),
        }
    }

    /// Turns the piece a quarter.
    pub fn rotate(&mut self, dir: RotateDirection)
        requires
            has_room(old(self)@),
        ensures
            final(self)@ == rotated(old(self)@, dir),
    {
        match self {
            Piece::I(p) => p.rotate(dir),
            Piece::J(p) => p.rotate(dir),
            Piece::L(p) => p.rotate(dir),
            Piece::O(p) => p.rotate(dir),
            Piece::S(p) => p.rotate(dir),
            Piece::T(p) => p.rotate(dir),
            Piece::Z(p) => p.rotate(dir),
        }
    }

    /// The blocks the piece would cover after `move_(dir)`.
    pub fn dry_move(&self, dir: MoveDirection) -> (r: Vec<Block>)
        requires
            has_room(self@),
        ensures
            views(r@) == blocks_of(translated(self@, dir)),
    {
        match self {
            Piece::I(p) => p.dry_move(dir),
            Piece::J(p) => p.dry_move(dir),
            Piece::L(p) => p.dry_move(dir),
            Piece::O(p) => p.dry_move(dir),
            Piece::S(p) => p.dry_move(dir),
            Piece::T(p) => p.dry_move(dir),
            Piece::Z(p) => p.dry_move(dir),
        }
    }

    /// The blocks the piece would cover after `rotate(dir)`.
    pub fn dry_rotate(&self, dir: RotateDirection) -> (r: Vec<Block>)
        requires
            has_room(self@),
        ensures
            views(r@) == blocks_of(rotated(self@, dir)),
    {
        match self {
            Piece::I(p) => p.dry_rotate(dir),
            Piece::J(p) => p.dry_rotate(dir),
            Piece::L(p) => p.dry_rotate(dir),
            Piece::O(p) => p.dry_rotate(dir),
            Piece::S(p) => p.dry_rotate(dir),
            Piece::T(p) => p.dry_rotate(dir),
            Piece::Z(p) => p.dry_rotate(dir),
        }
    }

    /// The four blocks the piece covers.
    pub fn blocks(&self) -> (r: Vec<Block>)
        requires
            fits_with(self@.axis, 2),
        ensures
            views(r@) == blocks_of(self@),
    {
        match self {
            Piece::I(p) => p.blocks(),
            Piece::J(p) => p.blocks(),
            Piece::L(p) => p.blocks(),
            Piece::O(p) => p.blocks(),
            Piece::S(p) => p.blocks(),
            Piece::T(p) => p.blocks(),
            Piece::Z(p) => p.blocks(),
        }
    }
}

} // verus!
