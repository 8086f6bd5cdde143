//! The pawn.

use vstd::prelude::*;
use crate::board::{coordinate_to_index, file_or_rank_distance, Board};
use crate::colour::{PieceColour, PieceType};
use crate::piece::Piece;
use crate::position::Placed;

verus! {

/// A pawn, with its colour and its square.
#[derive(Clone, Copy, Debug)]
pub struct Pawn {
    colour: PieceColour,
    file: u8,
    rank: u8,
}

impl View for Pawn {
    type V = Placed;

    closed spec fn view(&self) -> Placed {
        Placed {
            kind: PieceType::PAWN,
            colour: self.colour,
            file: self.file as int,
            rank: self.rank as int,
        }
    }
}

impl Pawn {
    /// The file and the rank of the square that the piece says it stands on.
    pub fn square(&self) -> (square: (u8, u8))
        ensures
            square.0 == self@.file,
            square.1 == self@.rank,
    {
        (self.file, self.rank)
    }
}

impl Piece for Pawn {
    fn new(is_white: bool, file: u8, rank: u8) -> (piece: Self)
        ensures
            piece@.kind == PieceType::PAWN,
    {
        Self {
            colour: if is_white {
                PieceColour::WHITE
            } else {
                PieceColour::BLACK
            },
            file,
            rank,
        }
    }

    fn is_pseudo_legal(&self, new_file: u8, new_rank: u8, board: &Board) -> (legal: bool) {
        let dest = &board.squares[coordinate_to_index(new_file, new_rank)];
        if let Some(piece) = dest {
            if piece.colour() == self.colour {
                return false;
            }
        }
        let forward = match self.colour {
            PieceColour::WHITE => new_rank > self.rank,
            PieceColour::BLACK => new_rank < self.rank,
        };
        if !forward {
            return false;
        }
        let file_diff = file_or_rank_distance(new_file, self.file);
        let rank_diff = file_or_rank_distance(new_rank, self.rank);

        // move forward 1
        if file_diff == 0 && rank_diff == 1 {
            return dest.is_none();
        }
        // move forward 2
        let start_rank: u8 = match self.colour {
            PieceColour::WHITE => 1,
            PieceColour::BLACK => 6,
        };
        if self.rank == start_rank && file_diff == 0 && rank_diff == 2 {
            let next_rank: u8 = match self.colour {
                PieceColour::WHITE => self.rank + 1,
                PieceColour::BLACK => self.rank - 1,
            };
            if board.squares[coordinate_to_index(new_file, next_rank)].is_some() {
                return false;
            }
            return dest.is_none();
        }
        // capture
        if file_diff == 1 && rank_diff == 1 {
            if dest.is_some() {
                return true;
            }
            // en passant
            if let Some(target) = board.en_passant_ind {
                return target == coordinate_to_index(new_file, new_rank);
            }
        }
        false
    }

    fn update_pos(&mut self, new_file: u8, new_rank: u8) {
        self.file = new_file;
        self.rank = new_rank;
    }

    fn colour(&self) -> (colour: PieceColour) {
        self.colour
    }

    fn piece_type(&self) -> (kind: PieceType) {
        PieceType::PAWN
    }
}

} // verus!
