//! The pieces: one type for each kind, what they have in common, and the type
//! of a piece of any kind.

use vstd::prelude::*;
use crate::board::Board;
use crate::colour::{PieceColour, PieceType};
use crate::position::{Placed, pseudo_legal};

pub mod bishop;
pub mod king;
pub mod knight;
pub mod pawn;
pub mod queen;
pub mod rook;

pub use bishop::Bishop;
pub use king::King;
pub use knight::Knight;
pub use pawn::Pawn;
pub use queen::Queen;
pub use rook::Rook;

verus! {

/// What every kind of piece can do.
pub trait Piece: Sized + View<V = Placed> {
    /// A piece of this kind and the given colour on the given square.
    fn new(is_white: bool, file: u8, rank: u8) -> (piece: Self)
        requires
            file < 8,
            rank < 8,
        ensures
            piece@.colour == PieceColour::of_white(is_white),
            piece@.file == file,
            piece@.rank == rank,
            piece@.wf(),
    ;

    /// Whether the piece may move to the square on `new_file` and `new_rank`.
    fn is_pseudo_legal(&self, new_file: u8, new_rank: u8, board: &Board) -> (legal: bool)
        requires
            self@.wf(),
            new_file < 8,
            new_rank < 8,
        ensures
            legal == pseudo_legal(self@, new_file as int, new_rank as int, board@),
    ;

    /// Records that the piece now stands on another square.
    fn update_pos(&mut self, new_file: u8, new_rank: u8)
        requires
            new_file < 8,
            new_rank < 8,
        ensures
            final(self)@ == old(self)@.moved_to(new_file as int, new_rank as int),
            final(self)@.wf(),
    ;

    /// The piece's colour.
    fn colour(&self) -> (colour: PieceColour)
        ensures
            colour == self@.colour,
    ;

    /// The piece's kind.
    fn piece_type(&self) -> (kind: PieceType)
        ensures
            kind == self@.kind,
    ;
}

/// A piece of any of the six kinds.
#[derive(Clone, Copy, Debug)]
pub enum AnyPiece {
    King(King),
    Queen(Queen),
    Rook(Rook),
    Bishop(Bishop),
    Knight(Knight),
    Pawn(Pawn),
}

impl View for AnyPiece {
    type V = Placed;

    open spec fn view(&self) -> Placed {
        match self {
            AnyPiece::King(piece) => piece@,
            AnyPiece::Queen(piece) => piece@,
            AnyPiece::Rook(piece) => piece@,
            AnyPiece::Bishop(piece) => piece@,
            AnyPiece::Knight(piece) => piece@,
            AnyPiece::Pawn(piece) => piece@,
        }
    }
}

impl AnyPiece {
    /// A piece of the given kind and colour on the given square.
    pub fn new(kind: PieceType, is_white: bool, file: u8, rank: u8) -> (piece: Self)
        requires
            file < 8,
            rank < 8,
        ensures
            piece@ == (Placed {
                kind,
                colour: PieceColour::of_white(is_white),
                file: file as int,
                rank: rank as int,
            }),
    {
        match kind {
            PieceType::KING => AnyPiece::King(King::new(is_white, file, rank)),
            PieceType::QUEEN => AnyPiece::Queen(Queen::new(is_white, file, rank)),
            PieceType::ROOK => AnyPiece::Rook(Rook::new(is_white, file, rank)),
            PieceType::BISHOP => AnyPiece::Bishop(Bishop::new(is_white, file, rank)),
            PieceType::KNIGHT => AnyPiece::Knight(Knight::new(is_white, file, rank)),
            PieceType::PAWN => AnyPiece::Pawn(Pawn::new(is_white, file, rank)),
        }
    }

    /// The file and the rank of the square that the piece says it stands on.
    pub fn square(&self) -> (square: (u8, u8))
        ensures
            square.0 == self@.file,
            square.1 == self@.rank,
    {
        match self {
            AnyPiece::King(piece) => piece.square(),
            AnyPiece::Queen(piece) => piece.square(),
            AnyPiece::Rook(piece) => piece.square(),
            AnyPiece::Bishop(piece) => piece.square(),
            AnyPiece::Knight(piece) => piece.square(),
            AnyPiece::Pawn(piece) => piece.square(),
        }
    }

    /// The piece's colour.
    pub fn colour(&self) -> (colour: PieceColour)
        ensures
            colour == self@.colour,
    {
        match self {
            AnyPiece::King(piece) => piece.colour(),
            AnyPiece::Queen(piece) => piece.colour(),
            AnyPiece::Rook(piece) => piece.colour(),
            AnyPiece::Bishop(piece) => piece.colour(),
            AnyPiece::Knight(piece) => piece.colour(),
            AnyPiece::Pawn(piece) => piece.colour(),
        }
    }

    /// The piece's kind.
    pub fn piece_type(&self) -> (kind: PieceType)
        ensures
            kind == self@.kind,
    {
        match self {
            AnyPiece::King(piece) => piece.piece_type(),
            AnyPiece::Queen(piece) => piece.piece_type(),
            AnyPiece::Rook(piece) => piece.piece_type(),
            AnyPiece::Bishop(piece) => piece.piece_type(),
            AnyPiece::Knight(piece) => piece.piece_type(),
            AnyPiece::Pawn(piece) => piece.piece_type(),
        }
    }

    /// Whether the piece may move to the square on `new_file` and `new_rank`.
    pub fn is_pseudo_legal(&self, new_file: u8, new_rank: u8, board: &Board) -> (legal: bool)
        requires
            self@.wf(),
            new_file < 8,
            new_rank < 8,
        ensures
            legal == pseudo_legal(self@, new_file as int, new_rank as int, board@),
    {
        match self {
            AnyPiece::King(piece) => piece.is_pseudo_legal(new_file, new_rank, board),
            AnyPiece::Queen(piece) => piece.is_pseudo_legal(new_file, new_rank, board),
            AnyPiece::Rook(piece) => piece.is_pseudo_legal(new_file, new_rank, board),
            AnyPiece::Bishop(piece) => piece.is_pseudo_legal(new_file, new_rank, board),
            AnyPiece::Knight(piece) => piece.is_pseudo_legal(new_file, new_rank, board),
            AnyPiece::Pawn(piece) => piece.is_pseudo_legal(new_file, new_rank, board),
        }
    }

    /// Records that the piece now stands on another square.
    pub fn update_pos(&mut self, new_file: u8, new_rank: u8)
        requires
            new_file < 8,
            new_rank < 8,
        ensures
            final(self)@ == old(self)@.moved_to(new_file as int, new_rank as int),
            final(self)@.wf(),
    {
        match self {
            AnyPiece::King(piece) => piece.update_pos(new_file, new_rank),
            AnyPiece::Queen(piece) => piece.update_pos(new_file, new_rank),
            AnyPiece::Rook(piece) => piece.update_pos(new_file, new_rank),
            AnyPiece::Bishop(piece) => piece.update_pos(new_file, new_rank),
            AnyPiece::Knight(piece) => piece.update_pos(new_file, new_rank),
            AnyPiece::Pawn(piece) => piece.update_pos(new_file, new_rank),
        }
    }
}

} // verus!
