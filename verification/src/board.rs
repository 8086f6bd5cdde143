//! The board: 64 squares, the side to move and the en-passant target.

use vstd::prelude::*;
use core::ops::Not;
use vstd::string::StringExecFns;
use crate::colour::{PieceColour, PieceType};
use crate::fen::{
    decode_placement, en_passant_haystack, en_passant_square, fen_error, fen_position,
    law_starting_position, EN_PASSANT_PATTERN,
};
use crate::io::Command;
use crate::pattern::{named_groups, regex_named_groups};
use crate::text::{chars_of, fields_view, push_chars, reversed_text, split_fields};
use crate::piece::AnyPiece;
use crate::position::{
    after_move, distance, lemma_lifted_piece_moves_alike, move_accepted, on_board, on_path,
    path_clear, promotion_due, promotion_kind, square_index, starting_position, Placed,
    Position,
};
use crate::{UnitResult, STARTING_FEN};

verus! {

/// What a square holds: a piece or nothing.
pub type Square = Option<AnyPiece>;

/// The index of the square on `file` and `rank`.
pub fn coordinate_to_index(file: u8, rank: u8) -> (index: usize)
    requires
        file < 8,
        rank < 8,
    ensures
        index == square_index(file as int, rank as int),
        index < 64,
{
    (file + rank * 8) as usize
}

/// The file and rank of the square `index`.
pub fn index_to_coordinate(index: usize) -> (coordinate: (u8, u8))
    requires
        index < 64,
    ensures
        coordinate.0 == index % 8,
        coordinate.1 == index / 8,
        coordinate.0 < 8,
        coordinate.1 < 8,
        square_index(coordinate.0 as int, coordinate.1 as int) == index,
{
    ((index % 8) as u8, (index / 8) as u8)
}

/// The distance between two files or two ranks.
pub fn file_or_rank_distance(a: u8, b: u8) -> (d: u8)
    ensures
        d == distance(a as int, b as int),
{
    if a <= b {
        b - a
    } else {
        a - b
    }
}

/// The model of what a square holds.
pub open spec fn square_view(square: Square) -> Option<Placed> {
    match square {
        Some(piece) => Some(piece@),
        None => None,
    }
}

/// What `Board::update` asks of a command: the squares of a move are squares of
/// the board, and a move that promotes a pawn names a kind to promote to.
pub open spec fn command_in_order(b: Position, command: Command) -> bool {
    match command {
        Command::Move { start_file, start_rank, end_file, end_rank, promotion_piece } => {
            &&& on_board(start_file as int, start_rank as int)
            &&& on_board(end_file as int, end_rank as int)
            &&& promotion_due(
                b,
                start_file as int,
                start_rank as int,
                end_file as int,
                end_rank as int,
            ) ==> promotion_kind(promotion_piece)
        },
        _ => true,
    }
}

/// Whether `Board::update` carries a command out: a move where a piece stands
/// on its source and may go to its destination, and every other command.
pub open spec fn accepted(b: Position, command: Command) -> bool {
    match command {
        Command::Move { start_file, start_rank, end_file, end_rank, promotion_piece } => {
            move_accepted(
                b,
                start_file as int,
                start_rank as int,
                end_file as int,
                end_rank as int,
            )
        },
        _ => true,
    }
}

/// The position that `Board::update` leaves: that after the move where the
/// command is a move that is accepted, and the same position otherwise.
pub open spec fn applied(b: Position, command: Command) -> Position {
    match command {
        Command::Move { start_file, start_rank, end_file, end_rank, promotion_piece } => {
            if accepted(b, command) {
                after_move(
                    b,
                    start_file as int,
                    start_rank as int,
                    end_file as int,
                    end_rank as int,
                    promotion_piece,
                )
            } else {
                b
            }
        },
        _ => b,
    }
}

/// Why `Board::update` refuses a move that is not accepted.
pub open spec fn refusal(b: Position, command: Command) -> Seq<char> {
    match command {
        Command::Move { start_file, start_rank, end_file, end_rank, promotion_piece } => {
            if b.at(start_file as int, start_rank as int) is None {
                no_piece_message()
            } else {
                invalid_move_message()
            }
        },
        _ => Seq::empty(),
    }
}

/// What `Board::update` answers where no piece stands on the source square.
pub open spec fn no_piece_message() -> Seq<char> {
    "Cannot make move: piece doesn't exist"@
}

/// What `Board::update` answers where the piece may not move to the destination.
pub open spec fn invalid_move_message() -> Seq<char> {
    "Cannot make move: invalid move"@
}

/// A chess position.
#[derive(Clone, Debug)]
pub struct Board {
    pub squares: [Square; 64],
    pub turn: PieceColour,
    pub en_passant_ind: Option<usize>,
}

impl View for Board {
    type V = Position;

    open spec fn view(&self) -> Position {
        Position {
            squares: Seq::new(64, |i: int| square_view(self.squares[i])),
            turn: self.turn,
            en_passant: match self.en_passant_ind {
                Some(target) => Some(target as int),
                None => None,
            },
        }
    }
}

/// The file or rank reached from `to` by `steps` steps against the direction `step`.
spec fn stepped_back(to: int, step: int, steps: int) -> int {
    if step == 0 {
        to
    } else if step == 1 {
        to - steps
    } else {
        to + steps
    }
}

/// The step, -1, 0 or 1, that leads from `from` toward `to`.
fn direction(from: u8, to: u8) -> (step: i8)
    ensures
        from < to ==> step == 1,
        from == to ==> step == 0,
        from > to ==> step == -1,
{
    if from < to {
        1
    } else if from == to {
        0
    } else {
        -1
    }
}

impl Board {
    /// The board's invariant: that of its model.
    pub open spec fn wf(&self) -> bool {
        self@.wf()
    }

    /// Whether the board's invariant holds: see `Position::wf`.
    pub fn is_well_formed(&self) -> (ok: bool)
        ensures
            ok == self.wf(),
    {
        if let Some(target) = self.en_passant_ind {
            if target >= 64 {
                return false;
            }
        }
        let mut index: usize = 0;
        while index < 64
            invariant
                index <= 64,
                forall|i: int|
                    0 <= i < index ==> match #[trigger] self@.squares[i] {
                        Some(p) => p.file == i % 8 && p.rank == i / 8,
                        None => true,
                    },
            decreases 64 - index,
        {
            if let Some(piece) = &self.squares[index] {
                let (file, rank) = piece.square();
                let (own_file, own_rank) = index_to_coordinate(index);
                if file != own_file || rank != own_rank {
                    assert(self@.squares[index as int] == Some(piece@));
                    return false;
                }
            }
            index += 1;
        }
        true
    }

    /// Whether every square strictly between two squares of one file, rank or
    /// diagonal is empty. The walk starts one step short of the destination
    /// and goes back toward the source.
    pub fn path_is_clear(
        &self,
        from_file: u8,
        from_rank: u8,
        to_file: u8,
        to_rank: u8,
    ) -> (clear: bool)
        requires
            from_file < 8,
            from_rank < 8,
            to_file < 8,
            to_rank < 8,
            from_file == to_file || from_rank == to_rank || distance(
                from_file as int,
                to_file as int,
            ) == distance(from_rank as int, to_rank as int),
        ensures
            clear == path_clear(
                self@,
                from_file as int,
                from_rank as int,
                to_file as int,
                to_rank as int,
            ),
    {
        let file_dir = direction(from_file, to_file);
        let rank_dir = direction(from_rank, to_rank);
        let file_diff = file_or_rank_distance(from_file, to_file);
        let rank_diff = file_or_rank_distance(from_rank, to_rank);
        let length: u8 = if file_diff >= rank_diff {
            file_diff
        } else {
            rank_diff
        };
        let mut steps: u8 = 1;
        let mut checking_file: i8 = to_file as i8 - file_dir;
        let mut checking_rank: i8 = to_rank as i8 - rank_dir;
        while steps < length
            invariant
                from_file < 8,
                from_rank < 8,
                to_file < 8,
                to_rank < 8,
                from_file == to_file || from_rank == to_rank || file_diff == rank_diff,
                file_diff == distance(from_file as int, to_file as int),
                rank_diff == distance(from_rank as int, to_rank as int),
                length == if file_diff >= rank_diff { file_diff } else { rank_diff },
                from_file < to_file ==> file_dir == 1,
                from_file == to_file ==> file_dir == 0,
                from_file > to_file ==> file_dir == -1,
                from_rank < to_rank ==> rank_dir == 1,
                from_rank == to_rank ==> rank_dir == 0,
                from_rank > to_rank ==> rank_dir == -1,
                1 <= steps,
                steps <= length || length == 0,
                checking_file == stepped_back(to_file as int, file_dir as int, steps as int),
                checking_rank == stepped_back(to_rank as int, rank_dir as int, steps as int),
                forall|file: int, rank: int|
                    on_path(
                        from_file as int,
                        from_rank as int,
                        to_file as int,
                        to_rank as int,
                        file,
                        rank,
                    ) && distance(file, to_file as int) < steps && distance(rank, to_rank as int)
                        < steps ==> (#[trigger] self@.at(file, rank)) is None,
            decreases length - steps,
        {
            assert(on_path(
                from_file as int,
                from_rank as int,
                to_file as int,
                to_rank as int,
                checking_file as int,
                checking_rank as int,
            ));
            let index = coordinate_to_index(checking_file as u8, checking_rank as u8);
            if self.squares[index].is_some() {
                assert(self@.at(checking_file as int, checking_rank as int) is Some);
                return false;
            }
            assert(self@.at(checking_file as int, checking_rank as int) is None);
            steps = steps + 1;
            checking_file = checking_file - file_dir;
            checking_rank = checking_rank - rank_dir;
        }
        true
    }

    /// Reads a position from its Forsyth–Edwards Notation. The grammar, and
    /// what is answered to a text outside it, is that of the module `fen`.
    pub fn from_fen(fen: &str) -> (result: Result<Self, String>)
        ensures
            match result {
                Ok(board) => {
                    &&& fen_error(fen@) is None
                    &&& board.wf()
                    &&& board@ == fen_position(
                        fen@,
                        regex_named_groups(
                            EN_PASSANT_PATTERN@,
                            en_passant_haystack(fen@),
                            "rank"@,
                            "file"@,
                        ),
                    )
                },
                Err(message) => fen_error(fen@) == Some(message@),
            },
    {
        let chars = chars_of(fen);
        if chars.len() == 0 {
            return Err("Invalid fen: No position".to_owned());
        }
        let fields = split_fields(&chars);
        assert(fields_view(fields@)[0] == fields@[0]@);

        // position
        let squares = match decode_placement(&fields[0]) {
            Some(squares) => squares,
            None => {
                return Err("Invalid fen: Position has more than 64 squares".to_owned());
            },
        };

        // turn
        if fields.len() < 2 {
            return Err("Invalid fen: No turn".to_owned());
        }
        assert(fields_view(fields@)[1] == fields@[1]@);
        let t = &fields[1];
        let turn = if t.len() == 1 && t[0] == 'w' {
            assert(t@ =~= seq!['w']);
            PieceColour::WHITE
        } else if t.len() == 1 && t[0] == 'b' {
            assert(t@ =~= seq!['b']);
            PieceColour::BLACK
        } else {
            assert(t@ != seq!['w'] && t@ != seq!['b']) by {
                assert(seq!['w'].len() == 1 && seq!['w'][0] == 'w');
                assert(seq!['b'].len() == 1 && seq!['b'][0] == 'b');
            }
            let mut message = "Invalid fen: '".to_owned();
            push_chars(&mut message, t);
            message.append("' is not a valid turn");
            return Err(message);
        };

        // en passant
        let en_passant_ind = if fields.len() >= 4 && fields[3].len() >= 2 {
            assert(fields_view(fields@)[3] == fields@[3]@);
            let haystack = reversed_text(&fields[3]);
            en_passant_square(named_groups(EN_PASSANT_PATTERN, haystack.as_str(), "rank", "file"))
        } else {
            None
        };

        assert(fields.len() >= 4 ==> fields_view(fields@)[3] == fields@[3]@);
        let board = Self { squares, turn, en_passant_ind };
        proof {
            let groups = regex_named_groups(
                EN_PASSANT_PATTERN@,
                en_passant_haystack(fen@),
                "rank"@,
                "file"@,
            );
            assert(board@.squares =~= fen_position(fen@, groups).squares);
        }
        Ok(board)
    }

    /// The position in which the game starts, read from `STARTING_FEN`. The
    /// reading never fails.
    pub fn new() -> (result: Result<Self, String>)
        ensures
            result matches Ok(board) && board.wf() && board@ == starting_position(),
    {
        proof {
            law_starting_position(
                regex_named_groups(
                    EN_PASSANT_PATTERN@,
                    en_passant_haystack(STARTING_FEN@),
                    "rank"@,
                    "file"@,
                ),
            );
        }
        Self::from_fen(STARTING_FEN)
    }

    /// Whether `update` may be given the command: see `command_in_order`.
    pub fn command_is_in_order(&self, command: &Command) -> (ok: bool)
        requires
            self.wf(),
        ensures
            ok == command_in_order(self@, *command),
    {
        match command {
            Command::Move { start_file, start_rank, end_file, end_rank, promotion_piece } => {
                if *start_file >= 8 || *start_rank >= 8 || *end_file >= 8 || *end_rank >= 8 {
                    return false;
                }
                let source = coordinate_to_index(*start_file, *start_rank);
                let due = match &self.squares[source] {
                    Some(piece) => {
                        assert(self@.squares[source as int] == Some(piece@));
                        let last_rank: u8 = match piece.colour() {
                            PieceColour::WHITE => 7,
                            PieceColour::BLACK => 0,
                        };
                        piece.piece_type() == PieceType::PAWN && *end_rank == last_rank
                            && piece.is_pseudo_legal(*end_file, *end_rank, self)
                    },
                    None => false,
                };
                if due {
                    match promotion_piece {
                        Some(PieceType::QUEEN) => true,
                        Some(PieceType::ROOK) => true,
                        Some(PieceType::BISHOP) => true,
                        Some(PieceType::KNIGHT) => true,
                        _ => false,
                    }
                } else {
                    true
                }
            },
            _ => true,
        }
    }

    /// Applies a command to the position. A move is applied in full or refused
    /// with the position left as it was; the other commands change nothing.
    pub fn update(&mut self, command: Command) -> (result: UnitResult)
        requires
            old(self).wf(),
            command_in_order(old(self)@, command),
        ensures
            final(self).wf(),
            result is Ok <==> accepted(old(self)@, command),
            final(self)@ == applied(old(self)@, command),
            // a refusal says why, and leaves every square, the turn and the target as they were
            result matches Err(message) ==> message@ == refusal(old(self)@, command) && *final(self)
                == *old(self),
            // so does a command that is no move
            !(command is Move) ==> *final(self) == *old(self),
            // an accepted move passes the turn
            command is Move && result is Ok ==> final(self).turn == old(self).turn.opposite()
                && final(self)@.en_passant_sound(),
    {
        match command {
            Command::Move { start_file, start_rank, end_file, end_rank, promotion_piece } => {
                self.make_move(start_file, start_rank, end_file, end_rank, promotion_piece)
            },
            _ => Ok(()),
        }
    }

    fn make_move(
        &mut self,
        start_file: u8,
        start_rank: u8,
        end_file: u8,
        end_rank: u8,
        promotion_piece: Option<PieceType>,
    ) -> (result: UnitResult)
        requires
            old(self).wf(),
            on_board(start_file as int, start_rank as int),
            on_board(end_file as int, end_rank as int),
            promotion_due(
                old(self)@,
                start_file as int,
                start_rank as int,
                end_file as int,
                end_rank as int,
            ) ==> promotion_kind(promotion_piece),
        ensures
            final(self).wf(),
            if move_accepted(
                old(self)@,
                start_file as int,
                start_rank as int,
                end_file as int,
                end_rank as int,
            ) {
                &&& result is Ok
                &&& final(self)@ == after_move(
                    old(self)@,
                    start_file as int,
                    start_rank as int,
                    end_file as int,
                    end_rank as int,
                    promotion_piece,
                )
                &&& final(self).turn == old(self).turn.opposite()
                &&& final(self)@.en_passant_sound()
            } else {
                &&& result matches Err(message)
                &&& message@ == if old(self)@.at(start_file as int, start_rank as int) is None {
                    no_piece_message()
                } else {
                    invalid_move_message()
                }
                &&& *final(self) == *old(self)
            },
    {
        let source = coordinate_to_index(start_file, start_rank);
        let dest = coordinate_to_index(end_file, end_rank);
        let ghost before = self@;
        match self.squares[source] {
            None => Err("Cannot make move: piece doesn't exist".to_owned()),
            Some(lifted) => {
                let mut piece = lifted;
                self.squares[source] = None;
                proof {
                    assert(self@.squares =~= before.without(source as int).squares);
                    lemma_lifted_piece_moves_alike(
                        before,
                        lifted@,
                        end_file as int,
                        end_rank as int,
                    );
                }
                if piece.is_pseudo_legal(end_file, end_rank, self) {
                    // promotion
                    if piece.piece_type() == PieceType::PAWN && (end_rank == 0 || end_rank == 7) {
                        let is_white = piece.colour() == PieceColour::WHITE;
                        piece = AnyPiece::new(
                            promotion_piece.unwrap(),
                            is_white,
                            end_file,
                            end_rank,
                        );
                    } else {
                        piece.update_pos(end_file, end_rank);
                    }
                    // en passant capture
                    if let Some(ind) = self.en_passant_ind {
                        if piece.piece_type() == PieceType::PAWN && dest == ind {
                            self.squares[coordinate_to_index(end_file, start_rank)] = None;
                        }
                    }
                    // en passant square
                    if piece.piece_type() == PieceType::PAWN && file_or_rank_distance(
                        start_rank,
                        end_rank,
                    ) == 2 {
                        self.en_passant_ind = Some(
                            coordinate_to_index(end_file, (start_rank + end_rank) / 2),
                        );
                    } else {
                        self.en_passant_ind = None;
                    }
                    self.turn = self.turn.not();
                    self.squares[dest] = Some(piece);
                    proof {
                        if let Some(target) = self.en_passant_ind {
                            let middle = (start_rank + end_rank) / 2;
                            assert(target == end_file + 8 * middle);
                            assert(target % 8 == end_file as int && target / 8 == middle);
                            assert(self@.at(end_file as int, end_rank as int) == Some(piece@));
                        }
                        assert(self@.squares =~= after_move(
                            before,
                            start_file as int,
                            start_rank as int,
                            end_file as int,
                            end_rank as int,
                            promotion_piece,
                        ).squares);
                    }
                    Ok(())
                } else {
                    self.squares[source] = Some(lifted);
                    assert(self.squares =~= old(self).squares);
                    Err("Cannot make move: invalid move".to_owned())
                }
            },
        }
    }
}

} // verus!
