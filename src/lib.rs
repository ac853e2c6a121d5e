//! Game kernel of a falling-block puzzle: pieces and their kinematics, the
//! playfield with line clearing, the seven-bag randomizer and the tick and
//! input state machine. Rendering and input decoding live with the host.

pub mod shared;
pub mod tetromino;
pub mod field;
pub mod game;
pub mod piece;
pub mod tetromino_factory;
