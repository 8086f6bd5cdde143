//! The mathematical model of a chess position, and the rules stated over it.
//!
//! Files and ranks are counted from 0. White's first rank is rank 0 and White's
//! pawns advance toward higher ranks; Black's first rank is rank 7.

use vstd::prelude::*;
use crate::colour::{PieceColour, PieceType};

verus! {

/// The index of the square on `file` and `rank`.
pub open spec fn square_index(file: int, rank: int) -> int {
    file + 8 * rank
}

/// Whether `file` and `rank` name a square of the board.
pub open spec fn on_board(file: int, rank: int) -> bool {
    0 <= file < 8 && 0 <= rank < 8
}

/// The distance between two files or two ranks.
pub open spec fn distance(a: int, b: int) -> int {
    if a <= b {
        b - a
    } else {
        a - b
    }
}

/// Whether `x` lies strictly between `a` and `b`, whichever of them is lower.
pub open spec fn strictly_between(a: int, x: int, b: int) -> bool {
    a < x < b || b < x < a
}

/// A piece together with the square it says it stands on.
pub struct Placed {
    pub kind: PieceType,
    pub colour: PieceColour,
    pub file: int,
    pub rank: int,
}

impl Placed {
    /// The piece's own square is a square of the board.
    pub open spec fn wf(self) -> bool {
        on_board(self.file, self.rank)
    }

    /// The index of the piece's own square.
    pub open spec fn index(self) -> int {
        square_index(self.file, self.rank)
    }

    /// The same piece on another square.
    pub open spec fn moved_to(self, file: int, rank: int) -> Placed {
        Placed { file, rank, ..self }
    }

    /// The step in rank that a pawn of this colour takes: up for White, down for Black.
    pub open spec fn forward(self) -> int {
        match self.colour {
            PieceColour::WHITE => 1,
            PieceColour::BLACK => -1,
        }
    }

    /// The rank on which a pawn of this colour starts the game.
    pub open spec fn pawn_start_rank(self) -> int {
        match self.colour {
            PieceColour::WHITE => 1,
            PieceColour::BLACK => 6,
        }
    }

    /// The rank on which a pawn of this colour is promoted.
    pub open spec fn last_rank(self) -> int {
        match self.colour {
            PieceColour::WHITE => 7,
            PieceColour::BLACK => 0,
        }
    }
}

/// A position: what stands on each of the 64 squares, the side to move, and
/// the square a pawn has just skipped, if one has.
pub struct Position {
    pub squares: Seq<Option<Placed>>,
    pub turn: PieceColour,
    pub en_passant: Option<int>,
}

impl Position {
    /// What stands on the square on `file` and `rank`.
    pub open spec fn at(self, file: int, rank: int) -> Option<Placed> {
        self.squares[square_index(file, rank)]
    }

    /// There are 64 squares, every piece records the square that holds it, and
    /// the en-passant target, if any, is a square of the board.
    pub open spec fn wf(self) -> bool {
        &&& self.squares.len() == 64
        &&& forall|i: int|
            0 <= i < 64 ==> match #[trigger] self.squares[i] {
                Some(p) => p.file == i % 8 && p.rank == i / 8,
                None => true,
            }
        &&& match self.en_passant {
            Some(target) => 0 <= target < 64,
            None => true,
        }
    }

    /// No piece stands anywhere.
    pub open spec fn is_empty(self) -> bool {
        forall|i: int| 0 <= i < self.squares.len() ==> (#[trigger] self.squares[i]) is None
    }

    /// The position with the square `index` emptied.
    pub open spec fn without(self, index: int) -> Position {
        Position { squares: self.squares.update(index, None), ..self }
    }

    /// Where a target is set, its square is empty and the pawn that skipped it
    /// stands one rank beyond it: a White pawn above rank 2 or a Black pawn
    /// below rank 5.
    pub open spec fn en_passant_sound(self) -> bool {
        match self.en_passant {
            Some(target) => {
                let file = target % 8;
                let rank = target / 8;
                &&& 0 <= target < 64
                &&& self.squares[target] is None
                &&& {
                    ||| rank == 2 && self.at(file, 3) == Some(
                        Placed { kind: PieceType::PAWN, colour: PieceColour::WHITE, file, rank: 3 },
                    )
                    ||| rank == 5 && self.at(file, 4) == Some(
                        Placed { kind: PieceType::PAWN, colour: PieceColour::BLACK, file, rank: 4 },
                    )
                }
            },
            None => true,
        }
    }
}

/// The kind of piece that starts the game on a file of its side's first rank.
pub open spec fn back_rank_kind(file: int) -> PieceType {
    if file == 0 || file == 7 {
        PieceType::ROOK
    } else if file == 1 || file == 6 {
        PieceType::KNIGHT
    } else if file == 2 || file == 5 {
        PieceType::BISHOP
    } else if file == 3 {
        PieceType::QUEEN
    } else {
        PieceType::KING
    }
}

/// What stands on a square when the game starts: White's pieces on rank 0 and
/// its pawns on rank 1, Black's pawns on rank 6 and its pieces on rank 7.
pub open spec fn starting_square(index: int) -> Option<Placed> {
    let file = index % 8;
    let rank = index / 8;
    if rank == 0 {
        Some(Placed { kind: back_rank_kind(file), colour: PieceColour::WHITE, file, rank })
    } else if rank == 1 {
        Some(Placed { kind: PieceType::PAWN, colour: PieceColour::WHITE, file, rank })
    } else if rank == 6 {
        Some(Placed { kind: PieceType::PAWN, colour: PieceColour::BLACK, file, rank })
    } else if rank == 7 {
        Some(Placed { kind: back_rank_kind(file), colour: PieceColour::BLACK, file, rank })
    } else {
        None
    }
}

/// The 64 squares as they are when the game starts.
pub open spec fn starting_squares() -> Seq<Option<Placed>> {
    Seq::new(64, |index: int| starting_square(index))
}

/// The position in which the game starts: White is to move and no pawn has
/// moved yet.
pub open spec fn starting_position() -> Position {
    Position { squares: starting_squares(), turn: PieceColour::WHITE, en_passant: None }
}

/// The 64 squares with nothing on them.
pub open spec fn empty_squares() -> Seq<Option<Placed>> {
    Seq::new(64, |index: int| None)
}

/// Whether the square on `file` and `rank` lies on the straight or diagonal
/// line from one square to another, strictly between the two.
pub open spec fn on_path(
    from_file: int,
    from_rank: int,
    to_file: int,
    to_rank: int,
    file: int,
    rank: int,
) -> bool {
    if from_file == to_file {
        file == from_file && strictly_between(from_rank, rank, to_rank)
    } else if from_rank == to_rank {
        rank == from_rank && strictly_between(from_file, file, to_file)
    } else {
        &&& strictly_between(from_file, file, to_file)
        &&& strictly_between(from_rank, rank, to_rank)
        &&& distance(from_file, file) == distance(from_rank, rank)
    }
}

/// Every square strictly between the two squares is empty.
pub open spec fn path_clear(
    b: Position,
    from_file: int,
    from_rank: int,
    to_file: int,
    to_rank: int,
) -> bool {
    forall|file: int, rank: int|
        on_path(from_file, from_rank, to_file, to_rank, file, rank) ==> (#[trigger] b.at(
            file,
            rank,
        )) is None
}

/// The destination holds a piece of the mover's own colour.
pub open spec fn own_piece_at(b: Position, colour: PieceColour, file: int, rank: int) -> bool {
    match b.at(file, rank) {
        Some(q) => q.colour == colour,
        None => false,
    }
}

/// One step in any direction.
pub open spec fn king_step(p: Placed, file: int, rank: int) -> bool {
    let df = distance(p.file, file);
    let dr = distance(p.rank, rank);
    df <= 1 && dr <= 1 && df + dr != 0
}

/// Two squares one way and one square the other.
pub open spec fn knight_jump(p: Placed, file: int, rank: int) -> bool {
    let df = distance(p.file, file);
    let dr = distance(p.rank, rank);
    (df == 2 && dr == 1) || (df == 1 && dr == 2)
}

/// Along a diagonal, at least one square.
pub open spec fn diagonal_line(p: Placed, file: int, rank: int) -> bool {
    let df = distance(p.file, file);
    let dr = distance(p.rank, rank);
    df == dr && df != 0
}

/// Along a file or a rank, at least one square.
pub open spec fn straight_line(p: Placed, file: int, rank: int) -> bool {
    let df = distance(p.file, file);
    let dr = distance(p.rank, rank);
    (df == 0) != (dr == 0)
}

/// A pawn's three ways to move: one square forward onto an empty square; two
/// squares forward from its starting rank over an empty square onto an empty
/// square; one square diagonally forward onto an occupied square or onto the
/// en-passant target.
pub open spec fn pawn_move(p: Placed, file: int, rank: int, b: Position) -> bool {
    let step = p.forward();
    ||| file == p.file && rank == p.rank + step && b.at(file, rank) is None
    ||| {
        &&& file == p.file
        &&& p.rank == p.pawn_start_rank()
        &&& rank == p.rank + 2 * step
        &&& b.at(file, p.rank + step) is None
        &&& b.at(file, rank) is None
    }
    ||| {
        &&& distance(p.file, file) == 1
        &&& rank == p.rank + step
        &&& (b.at(file, rank) is Some || b.en_passant == Some(square_index(file, rank)))
    }
}

/// Whether the piece `p` may move to the square on `file` and `rank` in the
/// position `b`, by its geometry and the ban on capturing one's own piece.
/// Whether the move leaves the mover's king attacked is not looked at.
pub open spec fn pseudo_legal(p: Placed, file: int, rank: int, b: Position) -> bool {
    &&& !own_piece_at(b, p.colour, file, rank)
    &&& match p.kind {
        PieceType::KING => king_step(p, file, rank),
        PieceType::KNIGHT => knight_jump(p, file, rank),
        PieceType::BISHOP => diagonal_line(p, file, rank) && path_clear(
            b,
            p.file,
            p.rank,
            file,
            rank,
        ),
        PieceType::ROOK => straight_line(p, file, rank) && path_clear(
            b,
            p.file,
            p.rank,
            file,
            rank,
        ),
        PieceType::QUEEN => (diagonal_line(p, file, rank) || straight_line(p, file, rank))
            && path_clear(b, p.file, p.rank, file, rank),
        PieceType::PAWN => pawn_move(p, file, rank, b),
    }
}

/// The kinds a pawn may be promoted to.
pub open spec fn promotion_kind(kind: Option<PieceType>) -> bool {
    kind == Some(PieceType::QUEEN) || kind == Some(PieceType::ROOK) || kind == Some(
        PieceType::BISHOP,
    ) || kind == Some(PieceType::KNIGHT)
}

/// Whether the piece is a pawn that reaches its last rank on `rank`.
pub open spec fn promotes(p: Placed, rank: int) -> bool {
    p.kind == PieceType::PAWN && rank == p.last_rank()
}

/// Whether a move from one square to another is accepted: a piece stands on
/// the source and may move to the destination.
pub open spec fn move_accepted(
    b: Position,
    from_file: int,
    from_rank: int,
    to_file: int,
    to_rank: int,
) -> bool {
    match b.at(from_file, from_rank) {
        Some(p) => pseudo_legal(p, to_file, to_rank, b),
        None => false,
    }
}

/// Whether an accepted move would promote a pawn, so that the caller owes a
/// promotion kind.
pub open spec fn promotion_due(
    b: Position,
    from_file: int,
    from_rank: int,
    to_file: int,
    to_rank: int,
) -> bool {
    match b.at(from_file, from_rank) {
        Some(p) => promotes(p, to_rank) && pseudo_legal(p, to_file, to_rank, b),
        None => false,
    }
}

/// The position after an accepted move. The piece leaves its square; a pawn on
/// its last rank is replaced by a piece of the promotion kind; a pawn that
/// lands on the en-passant target takes the piece on the destination's file and
/// the source's rank; whatever stood on the destination is taken; a pawn's
/// two-square advance sets the target to the square it skipped and every other
/// move clears it; the turn passes to the other side.
pub open spec fn after_move(
    b: Position,
    from_file: int,
    from_rank: int,
    to_file: int,
    to_rank: int,
    promotion: Option<PieceType>,
) -> Position {
    let p = b.at(from_file, from_rank).unwrap();
    let moved = if promotes(p, to_rank) {
        Placed { kind: promotion.unwrap(), colour: p.colour, file: to_file, rank: to_rank }
    } else {
        p.moved_to(to_file, to_rank)
    };
    let source = square_index(from_file, from_rank);
    let dest = square_index(to_file, to_rank);
    let lifted = b.squares.update(source, None);
    let taken = if moved.kind == PieceType::PAWN && b.en_passant == Some(dest) {
        lifted.update(square_index(to_file, from_rank), None)
    } else {
        lifted
    };
    Position {
        squares: taken.update(dest, Some(moved)),
        turn: b.turn.opposite(),
        en_passant: if moved.kind == PieceType::PAWN && distance(from_rank, to_rank) == 2 {
            Some(square_index(to_file, (from_rank + to_rank) / 2))
        } else {
            None
        },
    }
}

/// Lifting a piece off its square does not change where it may move.
pub proof fn lemma_lifted_piece_moves_alike(
    b: Position,
    p: Placed,
    file: int,
    rank: int,
)
    requires
        b.wf(),
        p.wf(),
        b.at(p.file, p.rank) == Some(p),
        on_board(file, rank),
    ensures
        pseudo_legal(p, file, rank, b.without(p.index())) == pseudo_legal(p, file, rank, b),
{
    let c = b.without(p.index());
    assert forall|f: int, r: int| on_board(f, r) && !(f == p.file && r == p.rank) implies c.at(f, r)
        == b.at(f, r) by {}
    assert(path_clear(b, p.file, p.rank, file, rank) == path_clear(c, p.file, p.rank, file, rank))
        by {
        assert forall|f: int, r: int| on_path(p.file, p.rank, file, rank, f, r) implies c.at(f, r)
            == b.at(f, r) by {}
    }
}

} // verus!
