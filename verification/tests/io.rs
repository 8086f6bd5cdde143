use chess::board::{coordinate_to_index, Board};
use chess::io::console::ConsoleRenderer;
use chess::io::window::{
    square_corner, square_under, texture_name, texture_path, SquareSelection, BOARD_SIZE,
    SQUARE_SIZE,
};
use chess::io::Command;
use chess::piece::AnyPiece;
use chess::{PieceColour, PieceType, EMPTY_FEN};

fn is_nothing(command: &Command) -> bool {
    matches!(command, Command::Nothing)
}

fn is_quit(command: &Command) -> bool {
    matches!(command, Command::Quit)
}

fn squares_of(command: &Command) -> Option<(u8, u8, u8, u8, Option<PieceType>)> {
    match command {
        Command::Move { start_file, start_rank, end_file, end_rank, promotion_piece } => {
            Some((*start_file, *start_rank, *end_file, *end_rank, *promotion_piece))
        },
        _ => None,
    }
}

#[test]
fn four_words_are_a_move() {
    let command = Command::from(vec!["a", "b", "c", "d"]);
    assert_eq!(squares_of(&command), Some((1, 1, 1, 1, None)));
    let command = Command::from(vec!["e2", "e4", "", "x"]);
    assert_eq!(squares_of(&command), Some((1, 1, 1, 1, None)));
    let command = Command::from(vec!["quit", "quit", "quit", "quit"]);
    assert_eq!(squares_of(&command), Some((1, 1, 1, 1, None)));
}

#[test]
fn the_word_quit_ends_the_game() {
    assert!(is_quit(&Command::from(vec!["quit"])));
    assert!(is_nothing(&Command::from(vec!["Quit"])));
    assert!(is_nothing(&Command::from(vec!["quit", "now"])));
    assert!(is_nothing(&Command::from(vec!["qui"])));
}

#[test]
fn other_words_ask_for_nothing() {
    assert!(is_nothing(&Command::from(Vec::new())));
    assert!(is_nothing(&Command::from(vec![""])));
    assert!(is_nothing(&Command::from(vec!["e2", "e4"])));
    assert!(is_nothing(&Command::from(vec!["a", "b", "c"])));
    assert!(is_nothing(&Command::from(vec!["a", "b", "c", "d", "e"])));
}

#[test]
fn a_typed_line_is_read_word_by_word() {
    let console = ConsoleRenderer::new();
    assert!(is_quit(&console.get_command("quit\r\n").unwrap()));
    assert!(is_nothing(&console.get_command("\r\n").unwrap()));
    assert!(is_nothing(&console.get_command("hello\r\n").unwrap()));
    assert!(is_nothing(&console.get_command("quit \r\n").unwrap()));
    assert!(is_nothing(&console.get_command("quit\n\r\n").unwrap()));
    assert!(is_nothing(&console.get_command("e2 e4\r\n").unwrap()));
    let command = console.get_command("move e2 to e4\r\n").unwrap();
    assert_eq!(squares_of(&command), Some((1, 1, 1, 1, None)));
    // three spaces separate four words
    let command = console.get_command("   \r\n").unwrap();
    assert_eq!(squares_of(&command), Some((1, 1, 1, 1, None)));
}

#[test]
fn the_letter_of_each_piece() {
    let console = ConsoleRenderer::new();
    let expected = [
        (PieceType::KING, 'K', 'k'),
        (PieceType::QUEEN, 'Q', 'q'),
        (PieceType::ROOK, 'R', 'r'),
        (PieceType::BISHOP, 'B', 'b'),
        (PieceType::KNIGHT, 'N', 'n'),
        (PieceType::PAWN, 'P', 'p'),
    ];
    for (kind, white, black) in expected {
        assert_eq!(console.piece_to_char(&Some(AnyPiece::new(kind, true, 3, 4))), white);
        assert_eq!(console.piece_to_char(&Some(AnyPiece::new(kind, false, 0, 0))), black);
    }
    assert_eq!(console.piece_to_char(&None), ' ');
}

#[test]
fn the_picture_of_the_initial_position() {
    let console = ConsoleRenderer::new();
    let board = Board::new().unwrap();
    let expected = "    a   b   c   d   e   f   g   h  \n\
\x20 +---+---+---+---+---+---+---+---+\n\
8 | r | n | b | q | k | b | n | r |\n\
\x20 +---+---+---+---+---+---+---+---+\n\
7 | p | p | p | p | p | p | p | p |\n\
\x20 +---+---+---+---+---+---+---+---+\n\
6 |   |   |   |   |   |   |   |   |\n\
\x20 +---+---+---+---+---+---+---+---+\n\
5 |   |   |   |   |   |   |   |   |\n\
\x20 +---+---+---+---+---+---+---+---+\n\
4 |   |   |   |   |   |   |   |   |\n\
\x20 +---+---+---+---+---+---+---+---+\n\
3 |   |   |   |   |   |   |   |   |\n\
\x20 +---+---+---+---+---+---+---+---+\n\
2 | P | P | P | P | P | P | P | P |\n\
\x20 +---+---+---+---+---+---+---+---+\n\
1 | R | N | B | Q | K | B | N | R |\n\
\x20 +---+---+---+---+---+---+---+---+\n\
WHITE's turn\n";
    assert_eq!(console.render(&board), expected);
}

#[test]
fn the_picture_shows_files_from_the_left_and_the_side_to_move() {
    let console = ConsoleRenderer::new();
    let board = Board::from_fen("8/8/8/8/8/2n5/8/7K b - - 0 1").unwrap();
    let text = console.render(&board);
    let lines: Vec<&str> = text.lines().collect();
    assert_eq!(lines.len(), 19);
    assert_eq!(lines[0], "    a   b   c   d   e   f   g   h  ");
    assert_eq!(lines[12], "3 |   |   | n |   |   |   |   |   |");
    assert_eq!(lines[16], "1 |   |   |   |   |   |   |   | K |");
    assert_eq!(lines[18], "BLACK's turn");
    assert!(text.ends_with("BLACK's turn\n"));
}

#[test]
fn the_pictures_of_the_pieces() {
    assert_eq!(texture_name(PieceColour::WHITE, PieceType::KING), "wk");
    assert_eq!(texture_name(PieceColour::WHITE, PieceType::QUEEN), "wq");
    assert_eq!(texture_name(PieceColour::WHITE, PieceType::ROOK), "wr");
    assert_eq!(texture_name(PieceColour::WHITE, PieceType::BISHOP), "wb");
    assert_eq!(texture_name(PieceColour::WHITE, PieceType::KNIGHT), "wn");
    assert_eq!(texture_name(PieceColour::WHITE, PieceType::PAWN), "wp");
    assert_eq!(texture_name(PieceColour::BLACK, PieceType::KING), "bk");
    assert_eq!(texture_name(PieceColour::BLACK, PieceType::QUEEN), "bq");
    assert_eq!(texture_name(PieceColour::BLACK, PieceType::ROOK), "br");
    assert_eq!(texture_name(PieceColour::BLACK, PieceType::BISHOP), "bb");
    assert_eq!(texture_name(PieceColour::BLACK, PieceType::KNIGHT), "bn");
    assert_eq!(texture_name(PieceColour::BLACK, PieceType::PAWN), "bp");
    assert_eq!(
        texture_path(PieceColour::WHITE, PieceType::KNIGHT),
        "assets/pieces/default/wn.png"
    );
    assert_eq!(texture_path(PieceColour::BLACK, PieceType::QUEEN), "assets/pieces/default/bq.png");
}

#[test]
fn squares_on_the_screen() {
    assert_eq!((SQUARE_SIZE, BOARD_SIZE), (100, 800));
    assert_eq!(square_corner(0, 7), (0, 0));
    assert_eq!(square_corner(0, 0), (0, 700));
    assert_eq!(square_corner(7, 0), (700, 700));
    assert_eq!(square_corner(4, 1), (400, 600));
    assert_eq!(square_under(0, 0), Some((0, 7)));
    assert_eq!(square_under(99, 99), Some((0, 7)));
    assert_eq!(square_under(100, 99), Some((1, 7)));
    assert_eq!(square_under(450, 650), Some((4, 1)));
    assert_eq!(square_under(799, 799), Some((7, 0)));
    assert_eq!(square_under(800, 0), None);
    assert_eq!(square_under(0, 800), None);
    assert_eq!(square_under(-1, 5), None);
    assert_eq!(square_under(5, -1), None);
    for file in 0..8u8 {
        for rank in 0..8u8 {
            let (x, y) = square_corner(file, rank);
            assert_eq!(square_under(x, y), Some((file, rank)));
            assert_eq!(square_under(x + 99, y + 99), Some((file, rank)));
        }
    }
}

#[test]
fn a_click_on_a_piece_of_the_mover_selects_it() {
    let board = Board::new().unwrap();
    let mut selection = SquareSelection::new();
    assert_eq!(selection.selected_square(), None);
    assert!(is_nothing(&selection.click(4, 1, &board)));
    assert_eq!(selection.selected_square(), Some((4, 1)));
    // another piece of the mover: the selection moves on
    assert!(is_nothing(&selection.click(6, 0, &board)));
    assert_eq!(selection.selected_square(), Some((6, 0)));
}

#[test]
fn a_click_elsewhere_asks_for_a_move_from_the_selected_square() {
    let board = Board::new().unwrap();
    let mut selection = SquareSelection::new();
    selection.click(4, 1, &board);
    let command = selection.click(4, 3, &board);
    assert_eq!(squares_of(&command), Some((4, 1, 4, 3, Some(PieceType::QUEEN))));
    assert_eq!(selection.selected_square(), None);
    assert!(board.command_is_in_order(&command));
    // onto a piece of the other side
    selection.click(3, 0, &board);
    let command = selection.click(3, 7, &board);
    assert_eq!(squares_of(&command), Some((3, 0, 3, 7, Some(PieceType::QUEEN))));
    assert_eq!(selection.selected_square(), None);
}

#[test]
fn a_click_without_a_selection_asks_for_nothing() {
    let board = Board::new().unwrap();
    let mut selection = SquareSelection::new();
    assert!(is_nothing(&selection.click(4, 4, &board)));
    assert_eq!(selection.selected_square(), None);
    // a piece of the side that is not to move
    assert!(is_nothing(&selection.click(4, 6, &board)));
    assert_eq!(selection.selected_square(), None);
    let empty = Board::from_fen(EMPTY_FEN).unwrap();
    assert!(is_nothing(&selection.click(0, 0, &empty)));
}

#[test]
fn clicks_play_a_move() {
    let mut board = Board::new().unwrap();
    let mut selection = SquareSelection::new();
    selection.click(4, 1, &board);
    let command = selection.click(4, 3, &board);
    assert!(board.command_is_in_order(&command));
    assert_eq!(board.update(command), Ok(()));
    assert!(board.squares[coordinate_to_index(4, 3)].is_some());
    // it is Black's turn: White's pieces are not selected any more
    assert!(is_nothing(&selection.click(3, 1, &board)));
    assert_eq!(selection.selected_square(), None);
    assert!(is_nothing(&selection.click(3, 6, &board)));
    assert_eq!(selection.selected_square(), Some((3, 6)));
}
