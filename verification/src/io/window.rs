//! The game in a window: where the squares lie on the screen, which picture
//! shows which piece, and what a click on a square asks for.

use vstd::prelude::*;
use vstd::string::StringExecFns;
use crate::board::{command_in_order, coordinate_to_index, Board};
use crate::colour::{PieceColour, PieceType};
use crate::io::Command;
use crate::position::{on_board, Position};

verus! {

/// The side of a square on the screen, in pixels.
pub const SQUARE_SIZE: i32 = 100;

/// The side of the board on the screen, in pixels.
pub const BOARD_SIZE: i32 = 800;

/// The name of the picture of a piece: `w` or `b` for its colour, then the
/// letter of its kind.
pub open spec fn texture_code(colour: PieceColour, kind: PieceType) -> Seq<char> {
    match (colour, kind) {
        (PieceColour::WHITE, PieceType::KING) => "wk"@,
        (PieceColour::WHITE, PieceType::QUEEN) => "wq"@,
        (PieceColour::WHITE, PieceType::ROOK) => "wr"@,
        (PieceColour::WHITE, PieceType::BISHOP) => "wb"@,
        (PieceColour::WHITE, PieceType::KNIGHT) => "wn"@,
        (PieceColour::WHITE, PieceType::PAWN) => "wp"@,
        (PieceColour::BLACK, PieceType::KING) => "bk"@,
        (PieceColour::BLACK, PieceType::QUEEN) => "bq"@,
        (PieceColour::BLACK, PieceType::ROOK) => "br"@,
        (PieceColour::BLACK, PieceType::BISHOP) => "bb"@,
        (PieceColour::BLACK, PieceType::KNIGHT) => "bn"@,
        (PieceColour::BLACK, PieceType::PAWN) => "bp"@,
    }
}

/// The name of the picture of a piece.
pub fn texture_name(colour: PieceColour, kind: PieceType) -> (name: &'static str)
    ensures
        name@ == texture_code(colour, kind),
{
    match (colour, kind) {
        (PieceColour::WHITE, PieceType::KING) => "wk",
        (PieceColour::WHITE, PieceType::QUEEN) => "wq",
        (PieceColour::WHITE, PieceType::ROOK) => "wr",
        (PieceColour::WHITE, PieceType::BISHOP) => "wb",
        (PieceColour::WHITE, PieceType::KNIGHT) => "wn",
        (PieceColour::WHITE, PieceType::PAWN) => "wp",
        (PieceColour::BLACK, PieceType::KING) => "bk",
        (PieceColour::BLACK, PieceType::QUEEN) => "bq",
        (PieceColour::BLACK, PieceType::ROOK) => "br",
        (PieceColour::BLACK, PieceType::BISHOP) => "bb",
        (PieceColour::BLACK, PieceType::KNIGHT) => "bn",
        (PieceColour::BLACK, PieceType::PAWN) => "bp",
    }
}

/// Where the picture of a piece is kept.
pub fn texture_path(colour: PieceColour, kind: PieceType) -> (path: String)
    ensures
        path@ == "assets/pieces/default/"@ + texture_code(colour, kind) + ".png"@,
{
    let mut path = "assets/pieces/default/".to_owned();
    path.append(texture_name(colour, kind));
    path.append(".png");
    path
}

/// The upper left corner of a square on the screen. Rank 7 is shown at the
/// top, so that White plays up the screen.
pub fn square_corner(file: u8, rank: u8) -> (corner: (i32, i32))
    requires
        file < 8,
        rank < 8,
    ensures
        corner.0 == SQUARE_SIZE * file,
        corner.1 == SQUARE_SIZE * (7 - rank),
{
    (SQUARE_SIZE * (file as i32), SQUARE_SIZE * ((7 - rank) as i32))
}

/// The square that shows the pixel at `x` and `y`, if the pixel is on the board.
pub fn square_under(x: i32, y: i32) -> (square: Option<(u8, u8)>)
    ensures
        square is Some <==> 0 <= x < BOARD_SIZE && 0 <= y < BOARD_SIZE,
        square matches Some((file, rank)) ==> {
            &&& file < 8
            &&& rank < 8
            &&& SQUARE_SIZE * file <= x < SQUARE_SIZE * file + SQUARE_SIZE
            &&& SQUARE_SIZE * (7 - rank) <= y < SQUARE_SIZE * (7 - rank) + SQUARE_SIZE
        },
{
    if 0 <= x && x < BOARD_SIZE && 0 <= y && y < BOARD_SIZE {
        let file = (x / SQUARE_SIZE) as u8;
        let row = (y / SQUARE_SIZE) as u8;
        Some((file, 7 - row))
    } else {
        None
    }
}

/// Whether a piece of the side to move stands on the square.
pub open spec fn holds_mover(b: Position, file: int, rank: int) -> bool {
    match b.at(file, rank) {
        Some(p) => p.colour == b.turn,
        None => false,
    }
}

/// The square that the player has picked a piece up from, if any.
pub struct SquareSelection {
    selected_square: Option<(u8, u8)>,
}

impl View for SquareSelection {
    type V = Option<(u8, u8)>;

    closed spec fn view(&self) -> Option<(u8, u8)> {
        self.selected_square
    }
}

impl SquareSelection {
    /// The selected square, if any, is a square of the board.
    pub open spec fn wf(&self) -> bool {
        match self@ {
            Some((file, rank)) => on_board(file as int, rank as int),
            None => true,
        }
    }

    /// No square is selected.
    pub fn new() -> (selection: Self)
        ensures
            selection@ is None,
            selection.wf(),
    {
        Self { selected_square: None }
    }

    /// The selected square.
    pub fn selected_square(&self) -> (selected: Option<(u8, u8)>)
        ensures
            selected == self@,
    {
        self.selected_square
    }

    /// What a click on a square asks for. A click on a piece of the side to
    /// move selects its square and asks for nothing. Any other click clears
    /// the selection; where a square was selected it asks to move from there to
    /// the clicked square, promoting to a queen where a promotion is due.
    pub fn click(&mut self, file: u8, rank: u8, board: &Board) -> (command: Command)
        requires
            old(self).wf(),
            file < 8,
            rank < 8,
        ensures
            final(self).wf(),
            command_in_order(board@, command),
            if holds_mover(board@, file as int, rank as int) {
                final(self)@ == Some((file, rank)) && command == Command::Nothing
            } else {
                final(self)@ is None && command == match old(self)@ {
                    Some((selected_file, selected_rank)) => Command::Move {
                        start_file: selected_file,
                        start_rank: selected_rank,
                        end_file: file,
                        end_rank: rank,
                        promotion_piece: Some(PieceType::QUEEN),
                    },
                    None => Command::Nothing,
                }
            },
    {
        if let Some(piece) = &board.squares[coordinate_to_index(file, rank)] {
            if piece.colour() == board.turn {
                self.selected_square = Some((file, rank));
                return Command::Nothing;
            }
        }
        if let Some((selected_file, selected_rank)) = self.selected_square {
            self.selected_square = None;
            return Command::Move {
                start_file: selected_file,
                start_rank: selected_rank,
                end_file: file,
                end_rank: rank,
                promotion_piece: Some(PieceType::QUEEN),
            };
        } else {
            self.selected_square = None;
        }
        Command::Nothing
    }
}

} // verus!
