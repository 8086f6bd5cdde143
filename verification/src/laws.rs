//! What holds of the rules for every position and every move.

use vstd::prelude::*;
use crate::colour::{PieceColour, PieceType};
use crate::position::{
    after_move, distance, move_accepted, on_board, on_path, promotes, promotion_kind,
    pseudo_legal, square_index, Placed, Position,
};

verus! {

/// Files and ranks on one side, square indices on the other, stand in a
/// one-to-one relation: every square of the board has an index below 64, the
/// index gives the file and the rank back, and every index below 64 is that of
/// the square on its file `index % 8` and its rank `index / 8`.
pub proof fn law_squares_and_indices(file: int, rank: int, index: int)
    ensures
        on_board(file, rank) ==> 0 <= square_index(file, rank) < 64,
        on_board(file, rank) ==> square_index(file, rank) % 8 == file && square_index(file, rank)
            / 8 == rank,
        0 <= index < 64 ==> on_board(index % 8, index / 8) && square_index(index % 8, index / 8)
            == index,
{
}

/// The other colour is another colour, and the other of the other colour is
/// the colour itself.
pub proof fn law_colours_alternate(colour: PieceColour)
    ensures
        colour.opposite() != colour,
        colour.opposite().opposite() == colour,
{
}

/// On an empty board a knight may move to a square exactly when the square
/// lies one file and two ranks away, or two files and one rank.
pub proof fn law_knight_geometry(knight: Placed, file: int, rank: int, b: Position)
    requires
        knight.kind == PieceType::KNIGHT,
        knight.wf(),
        on_board(file, rank),
        b.squares.len() == 64,
        b.is_empty(),
    ensures
        pseudo_legal(knight, file, rank, b) <==> {
            let df = distance(knight.file, file);
            let dr = distance(knight.rank, rank);
            (df == 1 && dr == 2) || (df == 2 && dr == 1)
        },
{
    assert(b.at(file, rank) is None);
}

/// On an empty board a king may move to a square exactly when the larger of
/// the two distances to it is one.
pub proof fn law_king_geometry(king: Placed, file: int, rank: int, b: Position)
    requires
        king.kind == PieceType::KING,
        king.wf(),
        on_board(file, rank),
        b.squares.len() == 64,
        b.is_empty(),
    ensures
        pseudo_legal(king, file, rank, b) <==> {
            let df = distance(king.file, file);
            let dr = distance(king.rank, rank);
            (if df >= dr {
                df
            } else {
                dr
            }) == 1
        },
{
    assert(b.at(file, rank) is None);
}

/// A rook, a bishop or a queen may not move past a piece: where any square
/// strictly between its own and the destination is occupied, the move is not
/// pseudo-legal, whatever else holds.
pub proof fn law_sliding_obstruction(
    piece: Placed,
    file: int,
    rank: int,
    b: Position,
    between_file: int,
    between_rank: int,
)
    requires
        piece.kind == PieceType::ROOK || piece.kind == PieceType::BISHOP || piece.kind
            == PieceType::QUEEN,
        on_path(piece.file, piece.rank, file, rank, between_file, between_rank),
        b.at(between_file, between_rank) is Some,
    ensures
        !pseudo_legal(piece, file, rank, b),
{
}

/// No piece may move to the square it stands on.
pub proof fn law_no_move_to_own_square(piece: Placed, b: Position)
    ensures
        !pseudo_legal(piece, piece.file, piece.rank, b),
{
}

/// No piece may move onto a piece of its own colour.
pub proof fn law_no_capture_of_own_colour(piece: Placed, file: int, rank: int, b: Position)
    requires
        b.at(file, rank) matches Some(other) && other.colour == piece.colour,
    ensures
        !pseudo_legal(piece, file, rank, b),
{
}

/// A pawn never moves toward its own side, and never more than two ranks.
pub proof fn law_pawn_advances(pawn: Placed, file: int, rank: int, b: Position)
    requires
        pawn.kind == PieceType::PAWN,
        pseudo_legal(pawn, file, rank, b),
    ensures
        pawn.colour == PieceColour::WHITE ==> pawn.rank < rank <= pawn.rank + 2,
        pawn.colour == PieceColour::BLACK ==> pawn.rank - 2 <= rank < pawn.rank,
        distance(pawn.file, file) <= 1,
{
}

/// An accepted move passes the turn to the other side.
pub proof fn law_turn_alternates(
    b: Position,
    from_file: int,
    from_rank: int,
    to_file: int,
    to_rank: int,
    promotion: Option<PieceType>,
)
    ensures
        after_move(b, from_file, from_rank, to_file, to_rank, promotion).turn
            == b.turn.opposite(),
        after_move(b, from_file, from_rank, to_file, to_rank, promotion).turn != b.turn,
{
}

/// An accepted move keeps a position well formed, leaves the source square
/// empty and puts the mover, or what it was promoted to, on the destination.
pub proof fn law_move_keeps_position_well_formed(
    b: Position,
    from_file: int,
    from_rank: int,
    to_file: int,
    to_rank: int,
    promotion: Option<PieceType>,
)
    requires
        b.wf(),
        on_board(from_file, from_rank),
        on_board(to_file, to_rank),
        move_accepted(b, from_file, from_rank, to_file, to_rank),
    ensures
        ({
            let after = after_move(b, from_file, from_rank, to_file, to_rank, promotion);
            let mover = b.at(from_file, from_rank).unwrap();
            &&& after.wf()
            &&& after.en_passant_sound()
            &&& after.at(from_file, from_rank) is None
            &&& after.at(to_file, to_rank) matches Some(arrived)
            &&& arrived.colour == mover.colour
            &&& arrived.file == to_file
            &&& arrived.rank == to_rank
            &&& arrived.kind == if promotes(mover, to_rank) {
                promotion.unwrap()
            } else {
                mover.kind
            }
        }),
{
    let after = after_move(b, from_file, from_rank, to_file, to_rank, promotion);
    let mover = b.at(from_file, from_rank).unwrap();
    assert(b.squares[square_index(from_file, from_rank)] == Some(mover));
    if let Some(target) = after.en_passant {
        let middle = (from_rank + to_rank) / 2;
        assert(target == to_file + 8 * middle);
        assert(target % 8 == to_file && target / 8 == middle);
    }
}

/// An accepted move changes at most three squares: the source, the
/// destination, and the square beside the source on the destination's file,
/// where a pawn taken en passant stood.
pub proof fn law_move_touches_three_squares(
    b: Position,
    from_file: int,
    from_rank: int,
    to_file: int,
    to_rank: int,
    promotion: Option<PieceType>,
    index: int,
)
    requires
        b.squares.len() == 64,
        on_board(from_file, from_rank),
        on_board(to_file, to_rank),
        0 <= index < 64,
        index != square_index(from_file, from_rank),
        index != square_index(to_file, to_rank),
        index != square_index(to_file, from_rank),
    ensures
        after_move(b, from_file, from_rank, to_file, to_rank, promotion).squares[index]
            == b.squares[index],
{
}

/// A pawn that takes en passant removes the pawn that skipped the target, not
/// a piece on the destination: in a position whose target is sound, a pawn of
/// the other colour that lands on the target empties the square beside its
/// source on the destination's file, where the pawn that skipped stood.
pub proof fn law_en_passant_takes_the_pawn_that_skipped(
    b: Position,
    from_file: int,
    from_rank: int,
    to_file: int,
    to_rank: int,
    promotion: Option<PieceType>,
)
    requires
        b.wf(),
        b.en_passant_sound(),
        on_board(from_file, from_rank),
        on_board(to_file, to_rank),
        b.en_passant == Some(square_index(to_file, to_rank)),
        move_accepted(b, from_file, from_rank, to_file, to_rank),
        b.at(from_file, from_rank) matches Some(mover) && mover.kind == PieceType::PAWN && (
        mover.colour == PieceColour::BLACK <==> to_rank == 2),
    ensures
        ({
            let after = after_move(b, from_file, from_rank, to_file, to_rank, promotion);
            let mover = b.at(from_file, from_rank).unwrap();
            &&& distance(from_file, to_file) == 1
            &&& b.at(to_file, to_rank) is None
            &&& b.at(to_file, from_rank) == Some(
                Placed {
                    kind: PieceType::PAWN,
                    colour: mover.colour.opposite(),
                    file: to_file,
                    rank: from_rank,
                },
            )
            &&& after.at(to_file, from_rank) is None
            &&& after.at(from_file, from_rank) is None
            &&& after.at(to_file, to_rank) == Some(mover.moved_to(to_file, to_rank))
            &&& after.en_passant is None
        }),
{
    let mover = b.at(from_file, from_rank).unwrap();
    let target = square_index(to_file, to_rank);
    assert(b.squares[square_index(from_file, from_rank)] == Some(mover));
    assert(target % 8 == to_file && target / 8 == to_rank);
}

/// A promotion kind is never a king or a pawn.
pub proof fn law_promotion_kinds(kind: Option<PieceType>)
    ensures
        promotion_kind(kind) ==> kind != Some(PieceType::KING) && kind != Some(PieceType::PAWN)
            && kind is Some,
{
}

} // verus!
