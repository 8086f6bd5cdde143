//! A game: a board, and whether play goes on.

use vstd::prelude::*;
use crate::board::{accepted, applied, command_in_order, refusal, Board};
use crate::io::Command;
use crate::position::starting_position;
use crate::UnitResult;

verus! {

/// A game of chess between two players at one board.
pub struct Game {
    pub board: Board,
    pub is_running: bool,
}

impl Game {
    /// A game that goes on, at the position in which the game starts.
    pub fn new() -> (result: Result<Self, String>)
        ensures
            result matches Ok(game) && game.is_running && game.board.wf() && game.board@
                == starting_position(),
    {
        Ok(Self { board: Board::new()?, is_running: true })
    }

    /// Takes one command. `Quit` ends the game and leaves the board alone;
    /// every other command goes to the board and leaves the game going as it was.
    pub fn update(&mut self, command: Command) -> (result: UnitResult)
        requires
            old(self).board.wf(),
            command_in_order(old(self).board@, command),
        ensures
            final(self).board.wf(),
            final(self).is_running == (old(self).is_running && !(command is Quit)),
            result is Ok <==> accepted(old(self).board@, command),
            final(self).board@ == applied(old(self).board@, command),
            result matches Err(message) ==> message@ == refusal(old(self).board@, command)
                && final(self).board == old(self).board,
            !(command is Move) ==> final(self).board == old(self).board,
            command is Move && result is Ok ==> final(self).board.turn
                == old(self).board.turn.opposite(),
    {
        match command {
            Command::Nothing => Ok(()),
            Command::Quit => {
                self.is_running = false;
                Ok(())
            },
            cmd => self.board.update(cmd),
        }
    }
}

} // verus!
