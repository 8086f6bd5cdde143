//! A chess position tracker: board representation, Forsyth–Edwards decoding,
//! pseudo-legal move rules for the six piece kinds, and move application with
//! capture, promotion and en passant.

use vstd::prelude::*;

pub mod board;
pub mod colour;
pub mod fen;
pub mod game;
pub mod io;
pub mod laws;
pub mod pattern;
pub mod piece;
pub mod position;
pub mod text;

pub use colour::{PieceColour, PieceType};

verus! {

/// The result of an operation that changes state and reports a refusal in words.
pub type UnitResult = Result<(), String>;

/// The standard initial position.
pub const STARTING_FEN: &'static str = "rnbqkbnr/pppppppp/8/8/8/8/PPPPPPPP/RNBQKBNR w KQkq - 0 1";

/// A board without pieces, White to move.
pub const EMPTY_FEN: &'static str = "8/8/8/8/8/8/8/8 w - - 0 1";

} // verus!
