//! The two colours and the six kinds of piece.

use vstd::prelude::*;
use vstd::std_specs::ops::NotSpecImpl;

verus! {

/// The kind of a piece.
#[derive(Debug, Clone, Copy, PartialEq, Eq, Structural, Hash)]
pub enum PieceType {
    KING,
    QUEEN,
    ROOK,
    BISHOP,
    KNIGHT,
    PAWN,
}

/// The side a piece belongs to; also the side to move.
#[derive(Debug, Clone, Copy, PartialEq, Eq, Structural, Hash)]
pub enum PieceColour {
    WHITE,
    BLACK,
}

impl PieceType {
    /// The six kinds.
    pub const PIECES: [PieceType; 6] = [
        PieceType::KING,
        PieceType::QUEEN,
        PieceType::ROOK,
        PieceType::BISHOP,
        PieceType::KNIGHT,
        PieceType::PAWN,
    ];
}

impl PieceColour {
    /// The two colours.
    pub const COLOURS: [PieceColour; 2] = [PieceColour::WHITE, PieceColour::BLACK];

    /// The other colour.
    pub open spec fn opposite(self) -> PieceColour {
        match self {
            PieceColour::WHITE => PieceColour::BLACK,
            PieceColour::BLACK => PieceColour::WHITE,
        }
    }

    /// White for `true`, Black for `false`.
    pub open spec fn of_white(is_white: bool) -> PieceColour {
        if is_white {
            PieceColour::WHITE
        } else {
            PieceColour::BLACK
        }
    }
}

impl core::ops::Not for PieceColour {
    type Output = PieceColour;

    fn not(self) -> (other: PieceColour) {
        match self {
            PieceColour::WHITE => PieceColour::BLACK,
            PieceColour::BLACK => PieceColour::WHITE,
        }
    }
}

impl NotSpecImpl for PieceColour {
    open spec fn obeys_not_spec() -> bool {
        true
    }

    open spec fn not_req(self) -> bool {
        true
    }

    open spec fn not_spec(self) -> PieceColour {
        self.opposite()
    }
}

} // verus!
