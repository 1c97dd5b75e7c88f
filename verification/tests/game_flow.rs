use std::cell::Cell as CountCell;

use n_in_a_row::board::{Cell, PlaceError};
use n_in_a_row::game::{Game, Outcome};
use n_in_a_row::input::Question;
use n_in_a_row::registry::PlayerRegistry;
use n_in_a_row::win::has_won;

fn registry_of(players: &[char]) -> PlayerRegistry {
    let mut registry = PlayerRegistry::new();
    for &p in players {
        registry.register(p).expect("identifiers are distinct");
    }
    registry
}

#[test]
fn setup_rejects_a_board_smaller_than_the_player_count() {
    assert!(Game::new(registry_of(&['X', 'O', 'Z']), 2).is_err());
    assert!(Game::new(registry_of(&['X', 'O']), 1).is_err());
    assert!(Game::new(registry_of(&['X', 'O']), 2).is_ok());
    assert!(Game::new(registry_of(&['X', 'O', 'Z']), 3).is_ok());
}

#[test]
fn turn_order_follows_registration_order_cyclically() {
    let mut game = Game::new(registry_of(&['A', 'B', 'C']), 3).unwrap();
    assert_eq!(game.current_player(), 'A');
    assert_eq!(game.play(0, 0), Ok(Outcome::Continue));
    assert_eq!(game.current_player(), 'B');
    assert_eq!(game.play(0, 1), Ok(Outcome::Continue));
    assert_eq!(game.current_player(), 'C');
    assert_eq!(game.play(0, 2), Ok(Outcome::Continue));
    assert_eq!(game.current_player(), 'A');
}

#[test]
fn two_player_size_two_game() {
    let mut game = Game::new(registry_of(&['X', 'O']), 2).unwrap();
    assert_eq!(game.winner(), None);
    assert_eq!(game.play(0, 0), Ok(Outcome::Continue));
    assert_eq!(game.play(0, 1), Ok(Outcome::Continue));
    // X's marks at (0,0) and (1,0) fill column 0 of the 2 x 2 board, so the
    // independent column check already decides this third move.
    assert_eq!(game.play(1, 0), Ok(Outcome::Won('X')));
    assert_eq!(game.winner(), Some('X'));
    assert!(has_won(game.board(), 'X'));
    assert!(!has_won(game.board(), 'O'));
}

#[test]
fn column_win_is_detected_without_a_row_win() {
    let mut game = Game::new(registry_of(&['X', 'O']), 3).unwrap();
    assert_eq!(game.play(0, 0), Ok(Outcome::Continue));
    assert_eq!(game.play(0, 1), Ok(Outcome::Continue));
    assert_eq!(game.play(1, 0), Ok(Outcome::Continue));
    assert_eq!(game.play(1, 1), Ok(Outcome::Continue));
    assert!(!has_won(game.board(), 'X'));
    assert_eq!(game.play(2, 0), Ok(Outcome::Won('X')));
    assert_eq!(game.winner(), Some('X'));
    // No row is complete: the win came through the column check alone.
    for r in 0..3 {
        let mut full_row = true;
        for c in 0..3 {
            if game.board().cell(r, c) != Cell::Occupied('X') {
                full_row = false;
            }
        }
        assert!(!full_row);
    }
}

#[test]
fn main_diagonal_win_across_interleaved_turns() {
    let mut game = Game::new(registry_of(&['X', 'O']), 3).unwrap();
    assert_eq!(game.play(0, 0), Ok(Outcome::Continue));
    assert_eq!(game.play(0, 1), Ok(Outcome::Continue));
    assert_eq!(game.play(1, 1), Ok(Outcome::Continue));
    assert_eq!(game.play(0, 2), Ok(Outcome::Continue));
    assert!(!has_won(game.board(), 'X'));
    assert_eq!(game.play(2, 2), Ok(Outcome::Won('X')));
    assert_eq!(game.winner(), Some('X'));
    assert!(has_won(game.board(), 'X'));
}

#[test]
fn occupied_cell_is_reported_and_the_same_player_retries() {
    let mut game = Game::new(registry_of(&['X', 'O']), 3).unwrap();
    assert_eq!(game.play(1, 1), Ok(Outcome::Continue));
    assert_eq!(game.current_player(), 'O');
    assert_eq!(game.play(1, 1), Err(PlaceError::Occupied));
    // The cell keeps its owner and O is still on turn: the full position,
    // row and column both, is asked for again.
    assert_eq!(game.board().cell(1, 1), Cell::Occupied('X'));
    assert_eq!(game.current_player(), 'O');
    assert_eq!(game.play(0, 1), Ok(Outcome::Continue));
    assert_eq!(game.current_player(), 'X');
}

#[test]
fn out_of_range_position_is_reported_and_changes_nothing() {
    let mut game = Game::new(registry_of(&['X', 'O']), 2).unwrap();
    assert_eq!(game.play(2, 0), Err(PlaceError::OutOfRange));
    assert_eq!(game.current_player(), 'X');
    assert_eq!(game.winner(), None);
}

#[test]
fn ask_forcefully_returns_the_first_accepted_answer() {
    let question = Question("How many players? ");
    let errors = CountCell::new(0usize);
    let r = question.ask_forcefully(
        vec![0usize, 1, 5, 2],
        |amount: &usize| *amount > 1,
        || errors.set(errors.get() + 1),
    );
    assert_eq!(r, Some(5));
    assert_eq!(errors.get(), 2);
}

#[test]
fn ask_forcefully_reports_every_refused_answer() {
    let question = Question("Enter the size of the board: ");
    let errors = CountCell::new(0usize);
    let r = question.ask_forcefully(
        vec![1usize, 0, 1],
        |size: &usize| *size >= 2,
        || errors.set(errors.get() + 1),
    );
    assert_eq!(r, None);
    assert_eq!(errors.get(), 3);
}

#[test]
fn ask_forcefully_accepts_an_unregistered_name() {
    let registry = registry_of(&['X', 'O']);
    let question = Question("Enter the name of player 3: ");
    let r = question.ask_forcefully(
        vec!['X', 'O', 'Z'],
        |name: &char| !registry.contains(*name),
        || {},
    );
    assert_eq!(r, Some('Z'));
}
