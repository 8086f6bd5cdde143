//! The game as text: the picture of a board, and the reading of a typed line.

use vstd::prelude::*;
use vstd::string::StringExecFns;
use crate::board::{coordinate_to_index, square_view, Board, Square};
use crate::colour::{PieceColour, PieceType};
use crate::io::{command_of_words, words_view, Command};
use crate::position::{Placed, Position};
use crate::text::{chars_of, fields_view, push_chars, split, split_fields};

verus! {

/// The letter that stands for a piece: upper case for White, lower case for
/// Black, and a blank for an empty square.
pub open spec fn piece_char(square: Option<Placed>) -> char {
    match square {
        Some(p) => match (p.colour, p.kind) {
            (PieceColour::WHITE, PieceType::KING) => 'K',
            (PieceColour::WHITE, PieceType::QUEEN) => 'Q',
            (PieceColour::WHITE, PieceType::ROOK) => 'R',
            (PieceColour::WHITE, PieceType::BISHOP) => 'B',
            (PieceColour::WHITE, PieceType::KNIGHT) => 'N',
            (PieceColour::WHITE, PieceType::PAWN) => 'P',
            (PieceColour::BLACK, PieceType::KING) => 'k',
            (PieceColour::BLACK, PieceType::QUEEN) => 'q',
            (PieceColour::BLACK, PieceType::ROOK) => 'r',
            (PieceColour::BLACK, PieceType::BISHOP) => 'b',
            (PieceColour::BLACK, PieceType::KNIGHT) => 'n',
            (PieceColour::BLACK, PieceType::PAWN) => 'p',
        },
        None => ' ',
    }
}

/// The line above the board that names the files.
pub open spec fn files_line() -> Seq<char> {
    "    a   b   c   d   e   f   g   h  \n"@
}

/// The line that separates two ranks.
pub open spec fn rule_line() -> Seq<char> {
    "  +---+---+---+---+---+---+---+---+\n"@
}

/// The first `files` cells of a rank.
pub open spec fn cells_text(b: Position, rank: int, files: int) -> Seq<char>
    decreases files,
{
    if files <= 0 {
        Seq::empty()
    } else {
        cells_text(b, rank, files - 1) + "| "@ + seq![piece_char(b.at(files - 1, rank))] + " "@
    }
}

/// The digit from 1 to 8 that labels a rank.
pub open spec fn rank_label(rank: int) -> char {
    ('1' as int + rank) as char
}

/// A rank of the board with its label, and the rule below it.
pub open spec fn rank_text(b: Position, rank: int) -> Seq<char> {
    seq![rank_label(rank)] + " "@ + cells_text(b, rank, 8) + "|\n"@ + rule_line()
}

/// The first `rows` ranks as they are shown: rank 7 comes first.
pub open spec fn rows_text(b: Position, rows: int) -> Seq<char>
    decreases rows,
{
    if rows <= 0 {
        Seq::empty()
    } else {
        rows_text(b, rows - 1) + rank_text(b, 8 - rows)
    }
}

/// The line that names the side to move.
pub open spec fn turn_line(turn: PieceColour) -> Seq<char> {
    match turn {
        PieceColour::WHITE => "WHITE's turn\n"@,
        PieceColour::BLACK => "BLACK's turn\n"@,
    }
}

/// The picture of a position: the files, the ranks from 8 down to 1 between
/// rules, and the side to move.
pub open spec fn board_text(b: Position) -> Seq<char> {
    files_line() + rule_line() + rows_text(b, 8) + turn_line(b.turn)
}

/// A line without the carriage return and line feed that end it.
pub open spec fn typed_line(line: Seq<char>) -> Seq<char> {
    line.subrange(0, line.len() - 2)
}

/// Whether a line ends with a carriage return and a line feed.
pub open spec fn ends_line(line: Seq<char>) -> bool {
    line.len() >= 2 && line[line.len() - 2] == '\r' && line[line.len() - 1] == '\n'
}

/// Shows the game as text and reads what the player types.
pub struct ConsoleRenderer {}

impl ConsoleRenderer {
    /// A renderer; it holds nothing.
    pub fn new() -> (renderer: Self) {
        Self {  }
    }

    /// The picture of the board, ready to be printed.
    pub fn render(&self, board: &Board) -> (text: String)
        ensures
            text@ == board_text(board@),
    {
        let mut text = "    a   b   c   d   e   f   g   h  \n".to_owned();
        text.append("  +---+---+---+---+---+---+---+---+\n");
        let mut row: u8 = 0;
        while row < 8
            invariant
                row <= 8,
                text@ == files_line() + rule_line() + rows_text(board@, row as int),
            decreases 8 - row,
        {
            let rank = 7 - row;
            let ghost before = text@;
            text.push((('1' as u8) + rank) as char);
            text.append(" ");
            let mut file: u8 = 0;
            while file < 8
                invariant
                    file <= 8,
                    rank < 8,
                    text@ == before + seq![rank_label(rank as int)] + " "@ + cells_text(
                        board@,
                        rank as int,
                        file as int,
                    ),
                decreases 8 - file,
            {
                text.append("| ");
                text.push(self.piece_to_char(&board.squares[coordinate_to_index(file, rank)]));
                text.append(" ");
                file += 1;
            }
            text.append("|\n");
            text.append("  +---+---+---+---+---+---+---+---+\n");
            row += 1;
            assert(text@ =~= files_line() + rule_line() + rows_text(board@, row as int));
        }
        match board.turn {
            PieceColour::WHITE => text.append("WHITE's turn\n"),
            PieceColour::BLACK => text.append("BLACK's turn\n"),
        }
        text
    }

    /// The letter that stands for what a square holds.
    pub fn piece_to_char(&self, piece_option: &Square) -> (letter: char)
        ensures
            letter == piece_char(square_view(*piece_option)),
    {
        match piece_option {
            Some(piece) => match (piece.colour(), piece.piece_type()) {
                (PieceColour::WHITE, PieceType::KING) => 'K',
                (PieceColour::WHITE, PieceType::QUEEN) => 'Q',
                (PieceColour::WHITE, PieceType::ROOK) => 'R',
                (PieceColour::WHITE, PieceType::BISHOP) => 'B',
                (PieceColour::WHITE, PieceType::KNIGHT) => 'N',
                (PieceColour::WHITE, PieceType::PAWN) => 'P',
                (PieceColour::BLACK, PieceType::KING) => 'k',
                (PieceColour::BLACK, PieceType::QUEEN) => 'q',
                (PieceColour::BLACK, PieceType::ROOK) => 'r',
                (PieceColour::BLACK, PieceType::BISHOP) => 'b',
                (PieceColour::BLACK, PieceType::KNIGHT) => 'n',
                (PieceColour::BLACK, PieceType::PAWN) => 'p',
            },
            None => ' ',
        }
    }

    /// The request that a typed line stands for. The line ends with a carriage
    /// return and a line feed, and its words are separated by single spaces.
    pub fn get_command(&self, line: &str) -> (result: Result<Command, String>)
        requires
            ends_line(line@),
        ensures
            result == Ok::<Command, String>(command_of_words(split(typed_line(line@)))),
    {
        let mut chars = chars_of(line);
        chars.pop();
        chars.pop();
        assert(chars@ == typed_line(line@));
        let fields = split_fields(&chars);
        let mut words: Vec<String> = Vec::new();
        let mut i: usize = 0;
        while i < fields.len()
            invariant
                i <= fields.len(),
                words.len() == i,
                forall|j: int| 0 <= j < i ==> words@[j]@ == fields@[j]@,
            decreases fields.len() - i,
        {
            let mut word = String::new();
            push_chars(&mut word, &fields[i]);
            words.push(word);
            i += 1;
        }
        let mut cmd: Vec<&str> = Vec::new();
        let mut k: usize = 0;
        while k < words.len()
            invariant
                k <= words.len(),
                cmd.len() == k,
                forall|j: int| 0 <= j < k ==> cmd@[j]@ == words@[j]@,
            decreases words.len() - k,
        {
            cmd.push(words[k].as_str());
            k += 1;
        }
        assert(words_view(cmd@) =~= fields_view(fields@));
        Ok(Command::from(cmd))
    }
}

} // verus!
