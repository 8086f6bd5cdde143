//! Forsyth–Edwards Notation: the grammar of a position's text, and the
//! functions that read it.
//!
//! The text is a list of fields separated by single spaces. The first field
//! places the pieces, the second names the side to move, the third (castling)
//! is passed over, the fourth names the en-passant target. Further fields are
//! passed over too.
//!
//! The placement field lists the squares from rank 7 down to rank 0 and, in a
//! rank, from file 0 to file 7. An ASCII digit passes over that many squares.
//! An ASCII letter stands on one square: `p n b r q k` place a Black piece,
//! `P N B R Q K` a White one, and any other letter leaves its square empty.
//! Every other character, the customary `/` between ranks included, takes no
//! square and is passed over.
//!
//! The side to move is `w` or `b`.
//!
//! The fourth field is searched, with the `regex` crate, for a file letter
//! from `a` to `h` followed by a rank digit from `1` to `8`. Where it names
//! several squares the last one is the target, and where it names none, or is
//! missing, there is no target.
//!
//! A text is refused, in this order: when it is empty; when a letter of its
//! placement falls behind the 64th square; when it has no second field; when
//! its second field is neither `w` nor `b`.

use vstd::prelude::*;
use crate::board::Square;
use crate::colour::{PieceColour, PieceType};
use crate::pattern::groups_view;
use crate::piece::AnyPiece;
use crate::position::{
    empty_squares, square_index, starting_position, starting_square, Placed, Position,
};
use crate::text::{chars_of, join, law_join_split, split};
use crate::{EMPTY_FEN, STARTING_FEN};

verus! {

/// An ASCII digit.
pub open spec fn is_digit(c: char) -> bool {
    '0' <= c <= '9'
}

/// The number an ASCII digit stands for.
pub open spec fn digit_value(c: char) -> int {
    c as int - '0' as int
}

/// An ASCII lower-case letter.
pub open spec fn is_lower(c: char) -> bool {
    'a' <= c <= 'z'
}

/// An ASCII letter.
pub open spec fn is_letter(c: char) -> bool {
    is_lower(c) || 'A' <= c <= 'Z'
}

/// The kind of piece a letter names, in either case; `None` for a letter that
/// names no piece.
pub open spec fn letter_kind(c: char) -> Option<PieceType> {
    if c == 'p' || c == 'P' {
        Some(PieceType::PAWN)
    } else if c == 'n' || c == 'N' {
        Some(PieceType::KNIGHT)
    } else if c == 'b' || c == 'B' {
        Some(PieceType::BISHOP)
    } else if c == 'r' || c == 'R' {
        Some(PieceType::ROOK)
    } else if c == 'q' || c == 'Q' {
        Some(PieceType::QUEEN)
    } else if c == 'k' || c == 'K' {
        Some(PieceType::KING)
    } else {
        None
    }
}

/// The number of squares a character of the placement field takes.
pub open spec fn advance(c: char) -> int {
    if is_digit(c) {
        digit_value(c)
    } else if is_letter(c) {
        1
    } else {
        0
    }
}

/// The number of squares that a piece of placement text takes in all.
pub open spec fn consumed(s: Seq<char>) -> int
    decreases s.len(),
{
    if s.len() == 0 {
        0
    } else {
        consumed(s.drop_last()) + advance(s.last())
    }
}

/// The letter of the placement text that stands on the square reached after
/// `k` squares, if there is one.
pub open spec fn letter_at(s: Seq<char>, k: int) -> Option<char>
    decreases s.len(),
{
    if s.len() == 0 {
        None
    } else if is_letter(s.last()) && consumed(s.drop_last()) == k {
        Some(s.last())
    } else {
        letter_at(s.drop_last(), k)
    }
}

/// Whether some letter of the placement text falls behind the 64th square.
pub open spec fn overruns(s: Seq<char>) -> bool
    decreases s.len(),
{
    if s.len() == 0 {
        false
    } else {
        overruns(s.drop_last()) || (is_letter(s.last()) && consumed(s.drop_last()) >= 64)
    }
}

/// How many squares the placement text has taken when it comes to the square
/// `index`: the text starts on rank 7 and goes down.
pub open spec fn squares_before(index: int) -> int {
    index % 8 + 8 * (7 - index / 8)
}

/// What the placement text puts on the square `index`.
pub open spec fn piece_on(placement: Seq<char>, index: int) -> Option<Placed> {
    match letter_at(placement, squares_before(index)) {
        Some(c) => match letter_kind(c) {
            Some(kind) => Some(
                Placed {
                    kind,
                    colour: PieceColour::of_white(!is_lower(c)),
                    file: index % 8,
                    rank: index / 8,
                },
            ),
            None => None,
        },
        None => None,
    }
}

/// The regular expression that finds the en-passant square. The field is
/// searched from its end, so the expression is written for the field read
/// backwards: a rank digit, then a file letter. The square that the field
/// names last is the one found.
pub const EN_PASSANT_PATTERN: &'static str = "(?<rank>[1-8])(?<file>[a-h])";

/// The text that is searched for the en-passant square: the fourth field,
/// read backwards.
pub open spec fn en_passant_haystack(text: Seq<char>) -> Seq<char> {
    split(text)[3].reverse()
}

/// The square that the rank digit and the file letter of a match name. `None`
/// where nothing was found, or where what was found does not start with a
/// digit from 1 to 8 and a letter from a to h.
pub open spec fn en_passant_target(groups: Option<(Seq<char>, Seq<char>)>) -> Option<int> {
    match groups {
        Some((rank, file)) => {
            if rank.len() > 0 && file.len() > 0 && '1' <= rank[0] <= '8' && 'a' <= file[0] <= 'h' {
                Some(square_index(file[0] as int - 'a' as int, rank[0] as int - '1' as int))
            } else {
                None
            }
        },
        None => None,
    }
}

/// What is answered to a text that is empty.
pub open spec fn no_position_message() -> Seq<char> {
    "Invalid fen: No position"@
}

/// What is answered to a placement with a letter behind the 64th square.
pub open spec fn overrun_message() -> Seq<char> {
    "Invalid fen: Position has more than 64 squares"@
}

/// What is answered to a text without a second field.
pub open spec fn no_turn_message() -> Seq<char> {
    "Invalid fen: No turn"@
}

/// What is answered to a second field that is neither `w` nor `b`.
pub open spec fn invalid_turn_message(turn: Seq<char>) -> Seq<char> {
    "Invalid fen: '"@ + turn + "' is not a valid turn"@
}

/// Why a text is not a position, in the order in which the text is read;
/// `None` for a text that is one.
pub open spec fn fen_error(text: Seq<char>) -> Option<Seq<char>> {
    let fields = split(text);
    if text.len() == 0 {
        Some(no_position_message())
    } else if overruns(fields[0]) {
        Some(overrun_message())
    } else if fields.len() < 2 {
        Some(no_turn_message())
    } else if fields[1] != seq!['w'] && fields[1] != seq!['b'] {
        Some(invalid_turn_message(fields[1]))
    } else {
        None
    }
}

/// Whether a text has a fourth field long enough to name a square, so that
/// the field is searched.
pub open spec fn names_en_passant(text: Seq<char>) -> bool {
    split(text).len() >= 4 && split(text)[3].len() >= 2
}

/// The position that a text describes, given what the search of its fourth
/// field found. A text with fewer than four fields, or with a fourth field of
/// fewer than two characters, has no en-passant target.
pub open spec fn fen_position(text: Seq<char>, groups: Option<(Seq<char>, Seq<char>)>) -> Position {
    let fields = split(text);
    Position {
        squares: Seq::new(64, |index: int| piece_on(fields[0], index)),
        turn: if fields[1] == seq!['w'] {
            PieceColour::WHITE
        } else {
            PieceColour::BLACK
        },
        en_passant: if names_en_passant(text) {
            en_passant_target(groups)
        } else {
            None
        },
    }
}

/// Whether `c` is an ASCII digit.
fn char_is_digit(c: char) -> (digit: bool)
    ensures
        digit == is_digit(c),
{
    '0' <= c && c <= '9'
}

/// Whether `c` is an ASCII lower-case letter.
fn char_is_lower(c: char) -> (lower: bool)
    ensures
        lower == is_lower(c),
{
    'a' <= c && c <= 'z'
}

/// Whether `c` is an ASCII letter.
fn char_is_letter(c: char) -> (letter: bool)
    ensures
        letter == is_letter(c),
{
    char_is_lower(c) || ('A' <= c && c <= 'Z')
}

/// The kind of piece that the letter `c` names.
fn kind_of_letter(c: char) -> (kind: Option<PieceType>)
    ensures
        kind == letter_kind(c),
{
    if c == 'p' || c == 'P' {
        Some(PieceType::PAWN)
    } else if c == 'n' || c == 'N' {
        Some(PieceType::KNIGHT)
    } else if c == 'b' || c == 'B' {
        Some(PieceType::BISHOP)
    } else if c == 'r' || c == 'R' {
        Some(PieceType::ROOK)
    } else if c == 'q' || c == 'Q' {
        Some(PieceType::QUEEN)
    } else if c == 'k' || c == 'K' {
        Some(PieceType::KING)
    } else {
        None
    }
}

/// Text never takes squares back.
pub proof fn lemma_consumed_nonnegative(s: Seq<char>)
    ensures
        consumed(s) >= 0,
    decreases s.len(),
{
    if s.len() > 0 {
        lemma_consumed_nonnegative(s.drop_last());
    }
}

/// Reads the placement field. The result is `None` where a letter falls
/// behind the 64th square, and the 64 squares otherwise.
pub fn decode_placement(placement: &Vec<char>) -> (squares: Option<[Square; 64]>)
    ensures
        squares is None <==> overruns(placement@),
        squares matches Some(filled) ==> forall|index: int|
            0 <= index < 64 ==> crate::board::square_view(#[trigger] filled[index]) == piece_on(
                placement@,
                index,
            ),
{
    let mut squares: [Square; 64] = [None;64];
    let mut ind: usize = 0;
    let mut i: usize = 0;
    while i < placement.len()
        invariant
            i <= placement.len(),
            ind <= 72,
            ind < 64 ==> ind == consumed(placement@.take(i as int)),
            ind >= 64 ==> consumed(placement@.take(i as int)) >= 64,
            !overruns(placement@.take(i as int)),
            forall|index: int|
                0 <= index < 64 ==> crate::board::square_view(#[trigger] squares[index])
                    == piece_on(placement@.take(i as int), index),
        decreases placement.len() - i,
    {
        let chr = placement[i];
        let ghost read = placement@.take(i as int);
        let ghost next = placement@.take(i + 1);
        proof {
            assert(next.drop_last() == read);
            assert(next.last() == chr);
            lemma_consumed_nonnegative(read);
        }
        if char_is_digit(chr) {
            if ind < 64 {
                ind += ((chr as u8) - ('0' as u8)) as usize;
            }
        } else if char_is_letter(chr) {
            if ind >= 64 {
                proof {
                    lemma_overrun_stays(placement@, i + 1);
                }
                return None;
            }
            let is_white = !char_is_lower(chr);
            let file = (ind % 8) as u8;
            let rank = 7 - (ind / 8) as u8;
            let index = crate::board::coordinate_to_index(file, rank);
            squares[index] = match kind_of_letter(chr) {
                Some(kind) => Some(AnyPiece::new(kind, is_white, file, rank)),
                None => None,
            };
            assert(squares_before(index as int) == ind);
            assert forall|other: int| 0 <= other < 64 && other != index implies squares_before(
                other,
            ) != ind by {}
            ind += 1;
        }
        i += 1;
    }
    assert(placement@.take(i as int) == placement@);
    Some(squares)
}

/// Once a letter has fallen behind the 64th square, more text does not mend it.
pub proof fn lemma_overrun_stays(s: Seq<char>, n: int)
    requires
        0 <= n <= s.len(),
        overruns(s.take(n)),
    ensures
        overruns(s),
    decreases s.len() - n,
{
    if n < s.len() {
        assert(s.take(n + 1).drop_last() == s.take(n));
        lemma_overrun_stays(s, n + 1);
    } else {
        assert(s.take(n) == s);
    }
}

/// The en-passant square that a match names: see `en_passant_target`.
pub fn en_passant_square(groups: Option<(String, String)>) -> (target: Option<usize>)
    ensures
        target.is_some() == en_passant_target(groups_view(groups)).is_some(),
        target matches Some(index) ==> en_passant_target(groups_view(groups)) == Some(
            index as int,
        ) && index < 64,
{
    match groups {
        Some((rank_text, file_text)) => {
            let rank_chars = chars_of(rank_text.as_str());
            let file_chars = chars_of(file_text.as_str());
            if rank_chars.len() == 0 || file_chars.len() == 0 {
                return None;
            }
            let rank_char = rank_chars[0];
            let file_char = file_chars[0];
            if '1' <= rank_char && rank_char <= '8' && 'a' <= file_char && file_char <= 'h' {
                let file = (file_char as u8) - ('a' as u8);
                let rank = (rank_char as u8) - ('1' as u8);
                Some(crate::board::coordinate_to_index(file, rank))
            } else {
                None
            }
        },
        None => None,
    }
}

/// A longer piece of the text has taken at least as many squares, and more
/// where a letter lies in between.
pub proof fn lemma_consumed_grows(s: Seq<char>, i: int, j: int)
    requires
        0 <= i <= j <= s.len(),
    ensures
        consumed(s.take(i)) <= consumed(s.take(j)),
        i < j && is_letter(s[i]) ==> consumed(s.take(i)) < consumed(s.take(j)),
    decreases j - i,
{
    if i < j {
        assert(s.take(j).drop_last() == s.take(j - 1));
        assert(s.take(j).last() == s[j - 1]);
        lemma_consumed_grows(s, i, j - 1);
    }
}

/// The letter on a square, said without recursion: `c` stands on the square
/// reached after `k` squares exactly when `c` is a letter of the text and the
/// text before it takes `k` squares. No two letters share a square.
pub proof fn law_letter_at(s: Seq<char>, k: int, c: char)
    ensures
        letter_at(s, k) == Some(c) <==> exists|i: int|
            0 <= i < s.len() && is_letter(#[trigger] s[i]) && consumed(s.take(i)) == k && s[i]
                == c,
    decreases s.len(),
{
    if s.len() > 0 {
        let t = s.drop_last();
        let last = s.len() - 1;
        assert(s.take(last) == t);
        law_letter_at(t, k, c);
        assert forall|i: int| 0 <= i < last implies t[i] == s[i] && t.take(i) == s.take(i) by {}
        if is_letter(s.last()) && consumed(t) == k {
            if c == s.last() {
                assert(is_letter(s[last]) && consumed(s.take(last)) == k && s[last] == c);
            }
            assert forall|i: int|
                0 <= i < s.len() && is_letter(#[trigger] s[i]) && consumed(s.take(i)) == k
                    && s[i] == c implies c == s.last() by {
                if i < last {
                    lemma_consumed_grows(s, i, last);
                }
            }
        } else {
            if letter_at(t, k) == Some(c) {
                let i = choose|i: int|
                    0 <= i < t.len() && is_letter(#[trigger] t[i]) && consumed(t.take(i)) == k
                        && t[i] == c;
                assert(is_letter(s[i]) && consumed(s.take(i)) == k && s[i] == c);
            }
            assert forall|i: int|
                0 <= i < s.len() && is_letter(#[trigger] s[i]) && consumed(s.take(i)) == k
                    && s[i] == c implies letter_at(t, k) == Some(c) by {
                assert(i < last);
                assert(is_letter(t[i]) && consumed(t.take(i)) == k && t[i] == c);
            }
        }
    }
}

/// A placement overruns the board exactly when one of its letters comes after
/// 64 squares or more.
pub proof fn law_overruns(s: Seq<char>)
    ensures
        overruns(s) <==> exists|i: int|
            0 <= i < s.len() && is_letter(#[trigger] s[i]) && consumed(s.take(i)) >= 64,
    decreases s.len(),
{
    if s.len() > 0 {
        let t = s.drop_last();
        let last = s.len() - 1;
        assert(s.take(last) == t);
        law_overruns(t);
        assert forall|i: int| 0 <= i < last implies t[i] == s[i] && t.take(i) == s.take(i) by {}
        if overruns(t) {
            let i = choose|i: int|
                0 <= i < t.len() && is_letter(#[trigger] t[i]) && consumed(t.take(i)) >= 64;
            assert(is_letter(s[i]) && consumed(s.take(i)) >= 64);
        } else if is_letter(s.last()) && consumed(t) >= 64 {
            assert(is_letter(s[last]) && consumed(s.take(last)) >= 64);
        } else {
            assert forall|i: int| 0 <= i < s.len() && is_letter(#[trigger] s[i]) implies consumed(
                s.take(i),
            ) < 64 by {
                if i < last {
                    assert(is_letter(t[i]));
                }
            }
        }
    }
}

/// Every piece that a placement puts on the board records the square it
/// stands on, and the colour that the case of its letter gives.
pub proof fn law_placed_pieces(placement: Seq<char>, index: int)
    requires
        0 <= index < 64,
    ensures
        piece_on(placement, index) matches Some(p) ==> p.wf() && p.index() == index,
{
}

/// Two pieces of text take the squares of the first and then those of the second.
pub proof fn lemma_consumed_append(a: Seq<char>, b: Seq<char>)
    ensures
        consumed(a + b) == consumed(a) + consumed(b),
    decreases b.len(),
{
    if b.len() == 0 {
        assert(a + b =~= a);
    } else {
        assert((a + b).drop_last() =~= a + b.drop_last());
        assert((a + b).last() == b.last());
        lemma_consumed_append(a, b.drop_last());
    }
}

/// No letter stands before the first square or behind the squares that the
/// text takes.
pub proof fn lemma_no_letter_outside(s: Seq<char>, k: int)
    requires
        k < 0 || k >= consumed(s),
    ensures
        letter_at(s, k) is None,
    decreases s.len(),
{
    if s.len() > 0 {
        lemma_consumed_nonnegative(s.drop_last());
        lemma_no_letter_outside(s.drop_last(), k);
    }
}

/// In text put behind other text, the letters of the second part stand where
/// they stood, moved on by the squares that the first part takes; every other
/// square is as the first part left it.
pub proof fn lemma_letter_at_append(a: Seq<char>, b: Seq<char>, k: int)
    ensures
        letter_at(a + b, k) == match letter_at(b, k - consumed(a)) {
            Some(c) => Some(c),
            None => letter_at(a, k),
        },
    decreases b.len(),
{
    if b.len() == 0 {
        assert(a + b =~= a);
    } else {
        assert((a + b).drop_last() =~= a + b.drop_last());
        assert((a + b).last() == b.last());
        lemma_consumed_append(a, b.drop_last());
        lemma_letter_at_append(a, b.drop_last(), k);
    }
}

/// A placement that takes no more than 64 squares stays on the board.
pub proof fn lemma_fits(s: Seq<char>)
    requires
        consumed(s) <= 64,
    ensures
        !overruns(s),
    decreases s.len(),
{
    if s.len() > 0 {
        lemma_consumed_nonnegative(s.drop_last());
        lemma_fits(s.drop_last());
    }
}

/// Ranks written one after the other with `/` between each two.
pub open spec fn ranks_text(ranks: Seq<Seq<char>>) -> Seq<char>
    decreases ranks.len(),
{
    if ranks.len() == 0 {
        Seq::empty()
    } else if ranks.len() == 1 {
        ranks[0]
    } else {
        ranks_text(ranks.drop_last()) + seq!['/'] + ranks.last()
    }
}

/// Ranks of eight squares each are read rank by rank: the square reached after
/// `k` squares holds what the rank `k / 8` of the text holds after `k % 8`
/// squares, and the text takes eight squares for every rank.
pub proof fn lemma_rank_by_rank(ranks: Seq<Seq<char>>, k: int)
    requires
        ranks.len() >= 1,
        forall|r: int| 0 <= r < ranks.len() ==> consumed(#[trigger] ranks[r]) == 8,
        0 <= k < 8 * ranks.len(),
    ensures
        consumed(ranks_text(ranks)) == 8 * ranks.len(),
        letter_at(ranks_text(ranks), k) == letter_at(ranks[k / 8], k % 8),
    decreases ranks.len(),
{
    if ranks.len() > 1 {
        let front = ranks.drop_last();
        let first = ranks_text(front);
        let spaced = first + seq!['/'];
        let rank = ranks.last();
        assert forall|r: int| 0 <= r < front.len() implies consumed(#[trigger] front[r]) == 8 by {
            assert(front[r] == ranks[r]);
        }
        lemma_rank_by_rank(front, 0);
        assert(spaced.drop_last() =~= first);
        assert(consumed(spaced) == consumed(first));
        assert(letter_at(spaced, k) == letter_at(first, k));
        lemma_consumed_append(spaced, rank);
        lemma_letter_at_append(spaced, rank, k);
        if k >= 8 * front.len() {
            lemma_no_letter_outside(first, k);
            assert(k / 8 == front.len() && k % 8 == k - 8 * front.len());
        } else {
            lemma_no_letter_outside(rank, k - consumed(spaced));
            lemma_rank_by_rank(front, k);
            assert(front[k / 8] == ranks[k / 8]);
        }
    }
}

/// A placement of eight ranks of eight squares each puts on every square what
/// its rank's text holds there: the first rank of the text is rank 7 of the
/// board.
pub proof fn law_rank_by_rank(ranks: Seq<Seq<char>>, index: int)
    requires
        ranks.len() == 8,
        forall|r: int| 0 <= r < 8 ==> consumed(#[trigger] ranks[r]) == 8,
        0 <= index < 64,
    ensures
        letter_at(ranks_text(ranks), squares_before(index)) == letter_at(
            ranks[7 - index / 8],
            index % 8,
        ),
{
    lemma_rank_by_rank(ranks, squares_before(index));
}

/// Whether a text is made of letters alone.
pub open spec fn letters_only(w: Seq<char>) -> bool {
    forall|i: int| 0 <= i < w.len() ==> is_letter(#[trigger] w[i])
}

/// Text made of letters alone takes one square for each and puts each letter
/// on its own square, in order.
pub proof fn lemma_letters_only(w: Seq<char>, k: int)
    requires
        letters_only(w),
    ensures
        consumed(w) == w.len(),
        letter_at(w, k) == if 0 <= k < w.len() {
            Some(w[k])
        } else {
            None
        },
    decreases w.len(),
{
    if w.len() > 0 {
        let shorter = w.drop_last();
        assert forall|i: int| 0 <= i < shorter.len() implies is_letter(#[trigger] shorter[i]) by {
            assert(shorter[i] == w[i]);
        }
        lemma_letters_only(shorter, k);
        assert(is_letter(w[w.len() - 1]));
    }
}

/// The text `STARTING_FEN` is the position in which the game starts,
/// whatever a search finds.
pub proof fn law_starting_position(groups: Option<(Seq<char>, Seq<char>)>)
    ensures
        fen_error(STARTING_FEN@) is None,
        fen_position(STARTING_FEN@, groups) == starting_position(),
{
    lemma_starting_fields();
    lemma_starting_placement();
    reveal_strlit("w");
    reveal_strlit("-");
    let fields = split(STARTING_FEN@);
    assert(fields[1] =~= seq!['w']);
    assert(fields[3].len() == 1);
    assert(fen_position(STARTING_FEN@, groups).squares =~= starting_position().squares);
}

/// The six fields of the standard initial position.
proof fn lemma_starting_fields()
    ensures
        STARTING_FEN@.len() == 56,
        split(STARTING_FEN@) == seq![
            "rnbqkbnr/pppppppp/8/8/8/8/PPPPPPPP/RNBQKBNR"@,
            "w"@,
            "KQkq"@,
            "-"@,
            "0"@,
            "1"@,
        ],
{
    reveal_strlit("rnbqkbnr/pppppppp/8/8/8/8/PPPPPPPP/RNBQKBNR w KQkq - 0 1");
    reveal_strlit("rnbqkbnr/pppppppp/8/8/8/8/PPPPPPPP/RNBQKBNR");
    reveal_strlit("w");
    reveal_strlit("KQkq");
    reveal_strlit("-");
    reveal_strlit("0");
    reveal_strlit("1");
    let fields = seq![
        "rnbqkbnr/pppppppp/8/8/8/8/PPPPPPPP/RNBQKBNR"@,
        "w"@,
        "KQkq"@,
        "-"@,
        "0"@,
        "1"@,
    ];
    assert(join(fields) =~= STARTING_FEN@) by {
        reveal_with_fuel(join, 7);
    }
    law_join_split(fields);
}

/// The placement of the standard initial position, square by square.
proof fn lemma_starting_placement()
    ensures
        !overruns("rnbqkbnr/pppppppp/8/8/8/8/PPPPPPPP/RNBQKBNR"@),
        forall|index: int|
            0 <= index < 64 ==> #[trigger] piece_on(
                "rnbqkbnr/pppppppp/8/8/8/8/PPPPPPPP/RNBQKBNR"@,
                index,
            ) == starting_square(index),
{
    reveal_strlit("rnbqkbnr/pppppppp/8/8/8/8/PPPPPPPP/RNBQKBNR");
    reveal_strlit("rnbqkbnr");
    reveal_strlit("pppppppp");
    reveal_strlit("8");
    reveal_strlit("PPPPPPPP");
    reveal_strlit("RNBQKBNR");
    let placement = "rnbqkbnr/pppppppp/8/8/8/8/PPPPPPPP/RNBQKBNR"@;
    let ranks = seq![
        "rnbqkbnr"@,
        "pppppppp"@,
        "8"@,
        "8"@,
        "8"@,
        "8"@,
        "PPPPPPPP"@,
        "RNBQKBNR"@,
    ];
    assert(ranks_text(ranks) =~= placement) by {
        reveal_with_fuel(ranks_text, 9);
    }
    assert(consumed("8"@) == 8) by {
        reveal_with_fuel(consumed, 2);
    }
    assert(letters_only("rnbqkbnr"@) && letters_only("pppppppp"@) && letters_only("PPPPPPPP"@)
        && letters_only("RNBQKBNR"@));
    assert forall|r: int| 0 <= r < 8 implies consumed(#[trigger] ranks[r]) == 8 by {
        if r == 0 || r == 1 || r == 6 || r == 7 {
            lemma_letters_only(ranks[r], 0);
        }
    }
    lemma_rank_by_rank(ranks, 0);
    lemma_fits(placement);
    assert forall|index: int| 0 <= index < 64 implies #[trigger] piece_on(placement, index)
        == starting_square(index) by {
        law_rank_by_rank(ranks, index);
        let r = 7 - index / 8;
        if r == 0 || r == 1 || r == 6 || r == 7 {
            lemma_letters_only(ranks[r], index % 8);
        } else {
            assert(letter_at("8"@, index % 8) is None) by {
                reveal_with_fuel(letter_at, 2);
            }
        }
    }
}

/// The text `EMPTY_FEN` is the position without a piece, with White to move
/// and no en-passant target, whatever a search finds.
pub proof fn law_empty_position(groups: Option<(Seq<char>, Seq<char>)>)
    ensures
        fen_error(EMPTY_FEN@) is None,
        fen_position(EMPTY_FEN@, groups) == (Position {
            squares: empty_squares(),
            turn: PieceColour::WHITE,
            en_passant: None,
        }),
{
    reveal_strlit("8/8/8/8/8/8/8/8 w - - 0 1");
    reveal_strlit("8/8/8/8/8/8/8/8");
    reveal_strlit("8");
    reveal_strlit("w");
    reveal_strlit("-");
    reveal_strlit("0");
    reveal_strlit("1");
    let placement = "8/8/8/8/8/8/8/8"@;
    let fields = seq![placement, "w"@, "-"@, "-"@, "0"@, "1"@];
    assert(join(fields) =~= EMPTY_FEN@) by {
        reveal_with_fuel(join, 7);
    }
    law_join_split(fields);
    assert(fields[1] =~= seq!['w']);
    let ranks = seq!["8"@, "8"@, "8"@, "8"@, "8"@, "8"@, "8"@, "8"@];
    assert(ranks_text(ranks) =~= placement) by {
        reveal_with_fuel(ranks_text, 9);
    }
    assert(consumed("8"@) == 8) by {
        reveal_with_fuel(consumed, 2);
    }
    lemma_rank_by_rank(ranks, 0);
    lemma_fits(placement);
    assert forall|index: int| 0 <= index < 64 implies (#[trigger] piece_on(placement, index))
        is None by {
        law_rank_by_rank(ranks, index);
        assert(letter_at("8"@, index % 8) is None) by {
            reveal_with_fuel(letter_at, 2);
        }
    }
    assert(fen_position(EMPTY_FEN@, groups).squares =~= empty_squares());
}

} // verus!
