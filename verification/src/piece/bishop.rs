//! The bishop.

use vstd::prelude::*;
use crate::board::{coordinate_to_index, file_or_rank_distance, Board};
use crate::colour::{PieceColour, PieceType};
use crate::piece::Piece;
use crate::position::Placed;

verus! {

/// A bishop, with its colour and its square.
#[derive(Clone, Copy, Debug)]
pub struct Bishop {
    colour: PieceColour,
    file: u8,
    rank: u8,
}

impl View for Bishop {
    type V = Placed;

    closed spec fn view(&self) -> Placed {
        Placed {
            kind: PieceType::BISHOP,
            colour: self.colour,
            file: self.file as int,
            rank: self.rank as int,
        }
    }
}

impl Bishop {
    /// The file and the rank of the square that the piece says it stands on.
    pub fn square(&self) -> (square: (u8, u8))
        ensures
            square.0 == self@.file,
            square.1 == self@.rank,
    {
        (self.file, self.rank)
    }
}

impl Piece for Bishop {
    fn new(is_white: bool, file: u8, rank: u8) -> (piece: Self)
        ensures
            piece@.kind == PieceType::BISHOP,
    {
        Self {
            colour: if is_white {
                PieceColour::WHITE
            } else {
                PieceColour::BLACK
            },
            file,
            rank,
        }
    }

    fn is_pseudo_legal(&self, new_file: u8, new_rank: u8, board: &Board) -> (legal: bool) {
        if let Some(piece) = &board.squares[coordinate_to_index(new_file, new_rank)] {
            if piece.colour() == self.colour {
                return false;
            }
        }
        let file_diff = file_or_rank_distance(new_file, self.file);
        let rank_diff = file_or_rank_distance(new_rank, self.rank);

        if file_diff != rank_diff || file_diff == 0 {
            return false;
        }
        board.path_is_clear(self.file, self.rank, new_file, new_rank)
    }

    fn update_pos(&mut self, new_file: u8, new_rank: u8) {
        self.file = new_file;
        self.rank = new_rank;
    }

    fn colour(&self) -> (colour: PieceColour) {
        self.colour
    }

    fn piece_type(&self) -> (kind: PieceType) {
        PieceType::BISHOP
    }
}

} // verus!
