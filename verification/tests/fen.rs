use chess::board::{coordinate_to_index, Board};
use chess::fen::{decode_placement, en_passant_square, EN_PASSANT_PATTERN};
use chess::text::{chars_of, push_chars, reversed_text, same_text, split_fields};
use chess::{PieceColour, PieceType, EMPTY_FEN, STARTING_FEN};

fn on(board: &Board, file: u8, rank: u8) -> Option<(PieceColour, PieceType)> {
    board.squares[coordinate_to_index(file, rank)].as_ref().map(|p| (p.colour(), p.piece_type()))
}

fn count(board: &Board) -> usize {
    board.squares.iter().filter(|s| s.is_some()).count()
}

fn error_of(text: &str) -> String {
    match Board::from_fen(text) {
        Ok(_) => panic!("{text:?} was read as a position"),
        Err(message) => message,
    }
}

#[test]
fn round_trip_of_the_initial_position() {
    let board =
        Board::from_fen("rnbqkbnr/pppppppp/8/8/8/8/PPPPPPPP/RNBQKBNR w KQkq - 0 1").unwrap();
    let mut white: usize = 0;
    let mut black: usize = 0;
    for rank in 0..8u8 {
        for file in 0..8u8 {
            match on(&board, file, rank) {
                Some((PieceColour::WHITE, _)) => {
                    assert!(rank <= 1);
                    white += 1;
                },
                Some((PieceColour::BLACK, _)) => {
                    assert!(rank >= 6);
                    black += 1;
                },
                None => assert!((2..=5).contains(&rank)),
            }
        }
    }
    assert_eq!(white, 16);
    assert_eq!(black, 16);
    assert_eq!(board.turn, PieceColour::WHITE);
    assert_eq!(board.en_passant_ind, None);
    assert_eq!(on(&board, 4, 0), Some((PieceColour::WHITE, PieceType::KING)));
    assert_eq!(on(&board, 3, 0), Some((PieceColour::WHITE, PieceType::QUEEN)));
    assert_eq!(on(&board, 4, 7), Some((PieceColour::BLACK, PieceType::KING)));
    assert_eq!(on(&board, 3, 7), Some((PieceColour::BLACK, PieceType::QUEEN)));
    assert_eq!(on(&board, 0, 7), Some((PieceColour::BLACK, PieceType::ROOK)));
    assert_eq!(on(&board, 6, 0), Some((PieceColour::WHITE, PieceType::KNIGHT)));
}

#[test]
fn the_constants_are_positions() {
    assert_eq!(STARTING_FEN, "rnbqkbnr/pppppppp/8/8/8/8/PPPPPPPP/RNBQKBNR w KQkq - 0 1");
    assert_eq!(EMPTY_FEN, "8/8/8/8/8/8/8/8 w - - 0 1");
    assert_eq!(count(&Board::from_fen(STARTING_FEN).unwrap()), 32);
    let empty = Board::from_fen(EMPTY_FEN).unwrap();
    assert_eq!(count(&empty), 0);
    assert_eq!(empty.turn, PieceColour::WHITE);
    assert_eq!(empty.en_passant_ind, None);
}

#[test]
fn the_first_rank_of_the_text_is_rank_seven() {
    let board = Board::from_fen("k6K/8/8/8/8/8/8/q6Q b - - 0 1").unwrap();
    assert_eq!(on(&board, 0, 7), Some((PieceColour::BLACK, PieceType::KING)));
    assert_eq!(on(&board, 7, 7), Some((PieceColour::WHITE, PieceType::KING)));
    assert_eq!(on(&board, 0, 0), Some((PieceColour::BLACK, PieceType::QUEEN)));
    assert_eq!(on(&board, 7, 0), Some((PieceColour::WHITE, PieceType::QUEEN)));
    assert_eq!(count(&board), 4);
    assert_eq!(board.turn, PieceColour::BLACK);
}

#[test]
fn digits_pass_over_squares() {
    let board = Board::from_fen("3p4/8/8/8/8/8/8/1N2b2R w - - 0 1").unwrap();
    assert_eq!(on(&board, 3, 7), Some((PieceColour::BLACK, PieceType::PAWN)));
    assert_eq!(on(&board, 1, 0), Some((PieceColour::WHITE, PieceType::KNIGHT)));
    assert_eq!(on(&board, 4, 0), Some((PieceColour::BLACK, PieceType::BISHOP)));
    assert_eq!(on(&board, 7, 0), Some((PieceColour::WHITE, PieceType::ROOK)));
    assert_eq!(count(&board), 4);
    // 0 passes over nothing, 9 over nine squares
    let odd = Board::from_fen("0r9r w").unwrap();
    assert_eq!(on(&odd, 0, 7), Some((PieceColour::BLACK, PieceType::ROOK)));
    assert_eq!(on(&odd, 2, 6), Some((PieceColour::BLACK, PieceType::ROOK)));
    assert_eq!(count(&odd), 2);
}

#[test]
fn the_slash_takes_no_square() {
    let with = Board::from_fen("rnbqkbnr/pppppppp/8/8/8/8/PPPPPPPP/RNBQKBNR w").unwrap();
    let without = Board::from_fen("rnbqkbnrpppppppp8888PPPPPPPPRNBQKBNR w").unwrap();
    assert_eq!(format!("{:?}", with), format!("{:?}", without));
    let short = Board::from_fen("4/p w").unwrap();
    assert_eq!(on(&short, 4, 7), Some((PieceColour::BLACK, PieceType::PAWN)));
}

#[test]
fn a_letter_that_names_no_piece_leaves_its_square_empty() {
    let board = Board::from_fen("xPzp4/8/8/8/8/8/8/8 w - - 0 1").unwrap();
    assert_eq!(on(&board, 0, 7), None);
    assert_eq!(on(&board, 1, 7), Some((PieceColour::WHITE, PieceType::PAWN)));
    assert_eq!(on(&board, 2, 7), None);
    assert_eq!(on(&board, 3, 7), Some((PieceColour::BLACK, PieceType::PAWN)));
    assert_eq!(count(&board), 2);
}

#[test]
fn characters_that_are_no_letter_and_no_digit_are_passed_over() {
    let board = Board::from_fen("-*p?é!P w").unwrap();
    assert_eq!(on(&board, 0, 7), Some((PieceColour::BLACK, PieceType::PAWN)));
    assert_eq!(on(&board, 1, 7), Some((PieceColour::WHITE, PieceType::PAWN)));
    assert_eq!(count(&board), 2);
}

#[test]
fn every_piece_letter() {
    let board = Board::from_fen("pnbrqk2/PNBRQK2/8/8/8/8/8/8 b").unwrap();
    let kinds = [
        PieceType::PAWN,
        PieceType::KNIGHT,
        PieceType::BISHOP,
        PieceType::ROOK,
        PieceType::QUEEN,
        PieceType::KING,
    ];
    for (file, kind) in kinds.iter().enumerate() {
        assert_eq!(on(&board, file as u8, 7), Some((PieceColour::BLACK, *kind)));
        assert_eq!(on(&board, file as u8, 6), Some((PieceColour::WHITE, *kind)));
    }
    assert_eq!(count(&board), 12);
}

#[test]
fn an_empty_text_has_no_position() {
    assert_eq!(error_of(""), "Invalid fen: No position");
}

#[test]
fn a_text_of_one_field_has_no_turn() {
    assert_eq!(error_of("8/8/8/8/8/8/8/8"), "Invalid fen: No turn");
    assert_eq!(error_of("rnbqkbnr/pppppppp/8/8/8/8/PPPPPPPP/RNBQKBNR"), "Invalid fen: No turn");
}

#[test]
fn a_turn_that_is_neither_w_nor_b_is_refused() {
    assert_eq!(error_of("8/8/8/8/8/8/8/8 x - - 0 1"), "Invalid fen: 'x' is not a valid turn");
    assert_eq!(
        error_of("8/8/8/8/8/8/8/8 white - - 0 1"),
        "Invalid fen: 'white' is not a valid turn"
    );
    assert_eq!(error_of("8/8/8/8/8/8/8/8 W"), "Invalid fen: 'W' is not a valid turn");
    assert_eq!(error_of("8/8/8/8/8/8/8/8 "), "Invalid fen: '' is not a valid turn");
    // two spaces hold an empty field
    assert_eq!(error_of("8/8/8/8/8/8/8/8  w"), "Invalid fen: '' is not a valid turn");
}

#[test]
fn a_letter_behind_the_last_square_is_refused() {
    let message = "Invalid fen: Position has more than 64 squares";
    assert_eq!(error_of("8/8/8/8/8/8/8/8/p w - - 0 1"), message);
    assert_eq!(error_of("rnbqkbnr/pppppppp/8/8/8/8/PPPPPPPP/RNBQKBNRR w"), message);
    assert_eq!(error_of("99999999x"), message);
    // the placement is read before the turn is looked for
    assert_eq!(error_of("8/8/8/8/8/8/8/8/p"), message);
    // digits alone may run on
    assert!(Board::from_fen("8/8/8/8/8/8/8/8/8/8 w").is_ok());
    assert!(Board::from_fen("8/8/8/8/8/8/8/7p w").is_ok());
}

#[test]
fn two_fields_are_enough() {
    let board = Board::from_fen("8/8/8/8/8/8/8/8 b").unwrap();
    assert_eq!(board.turn, PieceColour::BLACK);
    assert_eq!(board.en_passant_ind, None);
    let three = Board::from_fen("8/8/8/8/8/8/8/8 w KQkq").unwrap();
    assert_eq!(three.en_passant_ind, None);
    // an empty first field is an empty board
    let blank = Board::from_fen(" w").unwrap();
    assert_eq!(count(&blank), 0);
}

#[test]
fn the_fourth_field_names_the_en_passant_target() {
    let read = |field: &str| {
        Board::from_fen(&format!("8/8/8/8/8/8/8/8 w - {field} 0 1")).unwrap().en_passant_ind
    };
    assert_eq!(read("e3"), Some(20));
    assert_eq!(read("e3"), Some(coordinate_to_index(4, 2)));
    assert_eq!(read("a1"), Some(0));
    assert_eq!(read("h8"), Some(63));
    assert_eq!(read("d6"), Some(coordinate_to_index(3, 5)));
    assert_eq!(read("-"), None);
    assert_eq!(read("e"), None);
    assert_eq!(read("3"), None);
    assert_eq!(read("e9"), None);
    assert_eq!(read("i3"), None);
    assert_eq!(read("3e"), None);
    assert_eq!(read("E3"), None);
    // the square is looked for anywhere in the field, and the last one is taken
    assert_eq!(read("xe3y"), Some(20));
    assert_eq!(read("e3d6"), Some(coordinate_to_index(3, 5)));
    // the third field is never searched
    let castling = Board::from_fen("8/8/8/8/8/8/8/8 w e3 - 0 1").unwrap();
    assert_eq!(castling.en_passant_ind, None);
}

#[test]
fn the_square_that_a_match_names() {
    let groups = |rank: &str, file: &str| Some((rank.to_string(), file.to_string()));
    assert_eq!(en_passant_square(None), None);
    assert_eq!(en_passant_square(groups("3", "e")), Some(20));
    assert_eq!(en_passant_square(groups("1", "a")), Some(0));
    assert_eq!(en_passant_square(groups("8", "h")), Some(63));
    assert_eq!(en_passant_square(groups("6", "d")), Some(43));
    assert_eq!(en_passant_square(groups("", "e")), None);
    assert_eq!(en_passant_square(groups("3", "")), None);
    assert_eq!(en_passant_square(groups("9", "e")), None);
    assert_eq!(en_passant_square(groups("0", "e")), None);
    assert_eq!(en_passant_square(groups("3", "i")), None);
    assert_eq!(en_passant_square(groups("e", "3")), None);
    // only the first character of each text is read
    assert_eq!(en_passant_square(groups("34", "ef")), Some(20));
    assert_eq!(EN_PASSANT_PATTERN, "(?<rank>[1-8])(?<file>[a-h])");
}

#[test]
fn placement_alone() {
    let chars: Vec<char> = "8/8/8/8/8/8/8/R6k".chars().collect();
    let squares = decode_placement(&chars).unwrap();
    assert_eq!(squares.iter().filter(|s| s.is_some()).count(), 2);
    assert_eq!(squares[0].as_ref().map(|p| p.piece_type()), Some(PieceType::ROOK));
    assert_eq!(squares[7].as_ref().map(|p| p.colour()), Some(PieceColour::BLACK));
    let over: Vec<char> = "8/8/8/8/8/8/8/8k".chars().collect();
    assert!(decode_placement(&over).is_none());
    let none: Vec<char> = Vec::new();
    assert_eq!(decode_placement(&none).unwrap().iter().filter(|s| s.is_some()).count(), 0);
}

#[test]
fn texts_and_their_characters() {
    assert_eq!(chars_of("a b"), vec!['a', ' ', 'b']);
    assert_eq!(chars_of(""), Vec::<char>::new());
    assert_eq!(chars_of("é3"), vec!['é', '3']);
    let mut text = String::from("ab");
    push_chars(&mut text, &vec!['c', 'd']);
    assert_eq!(text, "abcd");
    assert_eq!(reversed_text(&vec!['e', '3']), "3e");
    assert_eq!(reversed_text(&vec![]), "");
    assert_eq!(reversed_text(&vec!['a', 'b', 'c']), "cba");
    assert!(same_text("quit", "quit"));
    assert!(!same_text("quit", "quiT"));
    assert!(!same_text("quit", "qui"));
    assert!(same_text("", ""));
}

#[test]
fn fields_between_spaces() {
    let split = |text: &str| -> Vec<String> {
        split_fields(&text.chars().collect()).iter().map(|f| f.iter().collect()).collect()
    };
    assert_eq!(split(""), vec![""]);
    assert_eq!(split("a"), vec!["a"]);
    assert_eq!(split("a b"), vec!["a", "b"]);
    assert_eq!(split("a  b"), vec!["a", "", "b"]);
    assert_eq!(split(" a"), vec!["", "a"]);
    assert_eq!(split("a "), vec!["a", ""]);
    assert_eq!(split(" "), vec!["", ""]);
    assert_eq!(
        split(STARTING_FEN),
        vec!["rnbqkbnr/pppppppp/8/8/8/8/PPPPPPPP/RNBQKBNR", "w", "KQkq", "-", "0", "1"]
    );
    for text in ["", "a b c", "  x ", "one two  three"] {
        assert_eq!(split(text), text.split(' ').collect::<Vec<&str>>());
        assert_eq!(split(text).join(" "), text);
    }
}
