use quadgrid::board::{Board, Cell, PlacementError};
use quadgrid::grid::is_divider;
use quadgrid::player::Player;

#[test]
fn new_board_is_empty() {
    let board = Board::new();
    for index in 0..49 {
        assert_eq!(board.occupant(index), Cell::Empty);
    }
    assert_eq!(board.cells(), [Cell::Empty; 49]);
    assert_eq!(Board::default(), board);
}

#[test]
fn placed_piece_is_found_again() {
    let mut board = Board::new();
    assert_eq!(board.place(0, Player::One), Ok(()));
    assert_eq!(board.occupant(0), Cell::Occupied(Player::One));
    assert_eq!(board.place(48, Player::Two), Ok(()));
    assert_eq!(board.occupant(48), Cell::Occupied(Player::Two));
    let cells = board.cells();
    assert_eq!(cells[0], Cell::Occupied(Player::One));
    assert_eq!(cells[48], Cell::Occupied(Player::Two));
    for index in 1..48 {
        assert_eq!(board.occupant(index), Cell::Empty);
    }
}

#[test]
fn divider_cells_refuse_every_piece() {
    for index in 0..49 {
        if is_divider(index) {
            for player in [Player::One, Player::Two] {
                let mut board = Board::new();
                assert_eq!(board.place(index, player), Err(PlacementError::DividerCell));
                assert_eq!(board, Board::new());
            }
        }
    }
}

#[test]
fn playable_cells_accept_a_piece() {
    let mut placed = 0;
    for index in 0..49 {
        if !is_divider(index) {
            let mut board = Board::new();
            assert_eq!(board.place(index, Player::Two), Ok(()));
            assert_eq!(board.occupant(index), Cell::Occupied(Player::Two));
            placed += 1;
        }
    }
    assert_eq!(placed, 36);
}

#[test]
fn occupied_cell_refuses_a_second_piece() {
    let mut board = Board::new();
    assert_eq!(board.place(8, Player::One), Ok(()));
    let before = board;
    assert_eq!(board.place(8, Player::Two), Err(PlacementError::CellOccupied));
    assert_eq!(board.place(8, Player::One), Err(PlacementError::CellOccupied));
    assert_eq!(board, before);
    assert_eq!(board.occupant(8), Cell::Occupied(Player::One));
}

#[test]
fn dividers_stay_empty_on_a_full_board() {
    let mut board = Board::new();
    for index in 0..49 {
        let player = if index % 2 == 0 { Player::One } else { Player::Two };
        let placed = board.place(index, player);
        assert_eq!(placed.is_err(), is_divider(index));
    }
    for index in 0..49 {
        assert_eq!(board.occupant(index) == Cell::Empty, is_divider(index));
    }
}

#[test]
fn opponents() {
    assert_eq!(Player::One.opponent(), Player::Two);
    assert_eq!(Player::Two.opponent(), Player::One);
}
