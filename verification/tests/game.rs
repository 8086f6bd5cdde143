use chess::board::coordinate_to_index;
use chess::game::Game;
use chess::io::Command;
use chess::{PieceColour, PieceType};

fn step(start_file: u8, start_rank: u8, end_file: u8, end_rank: u8) -> Command {
    Command::Move { start_file, start_rank, end_file, end_rank, promotion_piece: None }
}

#[test]
fn a_new_game_goes_on_at_the_initial_position() {
    let game = Game::new().unwrap();
    assert!(game.is_running);
    assert_eq!(game.board.turn, PieceColour::WHITE);
    assert_eq!(game.board.en_passant_ind, None);
    assert_eq!(game.board.squares.iter().filter(|s| s.is_some()).count(), 32);
    let king = game.board.squares[coordinate_to_index(4, 0)].as_ref().unwrap();
    assert_eq!((king.colour(), king.piece_type()), (PieceColour::WHITE, PieceType::KING));
}

#[test]
fn quit_ends_the_game_and_leaves_the_board() {
    let mut game = Game::new().unwrap();
    let before = format!("{:?}", game.board);
    assert_eq!(game.update(Command::Quit), Ok(()));
    assert!(!game.is_running);
    assert_eq!(format!("{:?}", game.board), before);
    // it stays ended
    assert_eq!(game.update(Command::Nothing), Ok(()));
    assert!(!game.is_running);
}

#[test]
fn nothing_changes_nothing() {
    let mut game = Game::new().unwrap();
    let before = format!("{:?}", game.board);
    assert_eq!(game.update(Command::Nothing), Ok(()));
    assert!(game.is_running);
    assert_eq!(format!("{:?}", game.board), before);
}

#[test]
fn a_move_goes_to_the_board() {
    let mut game = Game::new().unwrap();
    assert_eq!(game.update(step(6, 0, 5, 2)), Ok(()));
    assert!(game.is_running);
    assert_eq!(game.board.turn, PieceColour::BLACK);
    let knight = game.board.squares[coordinate_to_index(5, 2)].as_ref().unwrap();
    assert_eq!(knight.piece_type(), PieceType::KNIGHT);
    // a refused move is reported and the game goes on
    let before = format!("{:?}", game.board);
    assert_eq!(game.update(step(0, 7, 0, 5)), Err("Cannot make move: invalid move".to_string()));
    assert_eq!(
        game.update(step(0, 4, 0, 5)),
        Err("Cannot make move: piece doesn't exist".to_string())
    );
    assert!(game.is_running);
    assert_eq!(format!("{:?}", game.board), before);
}
