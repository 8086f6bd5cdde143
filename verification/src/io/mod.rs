//! What a player can ask for, and how raw input becomes such a request.

use vstd::prelude::*;
use vstd::std_specs::convert::FromSpecImpl;
use crate::colour::PieceType;
use crate::text::same_text;

pub mod console;
pub mod window;

verus! {

/// A request to the game.
#[derive(Debug)]
pub enum Command {
    /// Nothing to do.
    Nothing,
    /// Move the piece on the start square to the end square. A pawn that
    /// reaches its last rank becomes a piece of the kind `promotion_piece`.
    Move {
        start_file: u8,
        start_rank: u8,
        end_file: u8,
        end_rank: u8,
        promotion_piece: Option<PieceType>,
    },
    /// End the game.
    Quit,
}

/// The characters of each word.
pub open spec fn words_view(words: Seq<&str>) -> Seq<Seq<char>> {
    Seq::new(words.len(), |i: int| words[i]@)
}

/// The request that a line of words stands for. Four words are a move, of
/// which the squares are not read yet: it goes from the square on file 1 and
/// rank 1 to that same square. The one word `quit` ends the game. Anything
/// else asks for nothing.
pub open spec fn command_of_words(words: Seq<Seq<char>>) -> Command {
    if words.len() == 4 {
        Command::Move {
            start_file: 1,
            start_rank: 1,
            end_file: 1,
            end_rank: 1,
            promotion_piece: None,
        }
    } else if words.len() == 1 && words[0] == "quit"@ {
        Command::Quit
    } else {
        Command::Nothing
    }
}

impl<'a> From<Vec<&'a str>> for Command {
    fn from(value: Vec<&'a str>) -> (command: Self) {
        if value.len() == 4 {
            Self::Move {
                start_file: 1,
                start_rank: 1,
                end_file: 1,
                end_rank: 1,
                promotion_piece: None,
            }
        } else if value.len() == 1 && same_text(value[0], "quit") {
            Self::Quit
        } else {
            Self::Nothing
        }
    }
}

impl<'a> FromSpecImpl<Vec<&'a str>> for Command {
    open spec fn obeys_from_spec() -> bool {
        true
    }

    open spec fn from_spec(value: Vec<&'a str>) -> Command {
        command_of_words(words_view(value@))
    }
}

} // verus!
