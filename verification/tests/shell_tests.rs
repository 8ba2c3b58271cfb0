use quadgrid::board::Cell;
use quadgrid::display::{
    board_rows, error_label, place_label, player_label, symbol_for, turn_label,
};
use quadgrid::game::GameState;
use quadgrid::grid::Direction;
use quadgrid::input::{command_for_key, Key};
use quadgrid::model::{ActionError, Command};
use quadgrid::player::Player;
use quadgrid::rules::AnyTurn;

fn text(row: &[char]) -> String {
    row.iter().collect()
}

#[test]
fn movement_keys() {
    assert_eq!(command_for_key(Key::Char('w')), Some(Command::MoveCursor(Direction::Up)));
    assert_eq!(command_for_key(Key::Char('a')), Some(Command::MoveCursor(Direction::Left)));
    assert_eq!(command_for_key(Key::Char('s')), Some(Command::MoveCursor(Direction::Right)));
    assert_eq!(command_for_key(Key::Char('d')), Some(Command::MoveCursor(Direction::Down)));
}

#[test]
fn activation_and_quit_keys() {
    assert_eq!(command_for_key(Key::Enter), Some(Command::ActivateCell));
    assert_eq!(command_for_key(Key::Char(' ')), Some(Command::ActivateCell));
    assert_eq!(command_for_key(Key::Char('q')), Some(Command::Quit));
}

#[test]
fn other_keys_mean_nothing() {
    assert_eq!(command_for_key(Key::Other), None);
    assert_eq!(command_for_key(Key::Char('x')), None);
    assert_eq!(command_for_key(Key::Char('Q')), None);
    assert_eq!(command_for_key(Key::Char('W')), None);
    assert_eq!(command_for_key(Key::Char('\n')), None);
    assert_eq!(command_for_key(Key::Char('é')), None);
}

#[test]
fn player_labels() {
    assert_eq!(player_label(Player::One), "One");
    assert_eq!(player_label(Player::Two), "Two");
}

#[test]
fn action_labels() {
    assert_eq!(place_label(true), "Can place");
    assert_eq!(place_label(false), "Can't place");
    assert_eq!(turn_label(true), "Can turn");
    assert_eq!(turn_label(false), "Can't turn");
}

#[test]
fn error_labels() {
    assert_eq!(error_label(ActionError::DividerCell), "Not a playable cell");
    assert_eq!(error_label(ActionError::CellOccupied), "Cell is occupied");
    assert_eq!(error_label(ActionError::IllegalAction), "Not allowed now");
}

#[test]
fn cell_symbols() {
    assert_eq!(symbol_for(0, Cell::Empty), '.');
    assert_eq!(symbol_for(0, Cell::Occupied(Player::One)), 'X');
    assert_eq!(symbol_for(0, Cell::Occupied(Player::Two)), 'O');
    assert_eq!(symbol_for(3, Cell::Empty), '|');
    assert_eq!(symbol_for(21, Cell::Empty), '-');
    assert_eq!(symbol_for(24, Cell::Empty), '|');
    assert_eq!(symbol_for(27, Cell::Empty), '-');
    assert_eq!(symbol_for(45, Cell::Empty), '|');
    assert_eq!(symbol_for(48, Cell::Empty), '.');
}

#[test]
fn empty_board_rows() {
    let rows = board_rows(&GameState::new().snapshot().board_occupancy);
    assert_eq!(rows.len(), 7);
    for (row, symbols) in rows.iter().enumerate() {
        assert_eq!(symbols.len(), 7);
        let expected = if row == 3 { "---|---" } else { "...|..." };
        assert_eq!(text(symbols), expected);
    }
}

#[test]
fn board_rows_show_the_pieces() {
    let mut state = GameState::new();
    assert_eq!(state.activate_cell(&AnyTurn), Ok(()));
    assert_eq!(state.activate_cell(&AnyTurn), Ok(()));
    for _ in 0..13 {
        state.move_cursor(Direction::Right);
    }
    assert_eq!(state.activate_cell(&AnyTurn), Ok(()));
    let rows = board_rows(&state.snapshot().board_occupancy);
    assert_eq!(text(&rows[0]), "X..|...");
    assert_eq!(text(&rows[1]), "...|..O");
    assert_eq!(text(&rows[2]), "...|...");
    assert_eq!(text(&rows[3]), "---|---");
    assert_eq!(text(&rows[6]), "...|...");
}
