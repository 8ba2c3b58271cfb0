//! What a renderer shows of a state: the labels of the status bar and the
//! symbols of the board, as plain text.

use vstd::prelude::*;
use crate::board::Cell;
use crate::model::ActionError;
use crate::player::Player;

verus! {

/// The name a player is shown under.
pub open spec fn player_text(player: Player) -> Seq<char> {
    match player {
        Player::One => "One"@,
        Player::Two => "Two"@,
    }
}

/// The text that says whether a piece may be placed.
pub open spec fn place_text(can_place: bool) -> Seq<char> {
    if can_place {
        "Can place"@
    } else {
        "Can't place"@
    }
}

/// The text that says whether a piece may be turned.
pub open spec fn turn_text(can_turn: bool) -> Seq<char> {
    if can_turn {
        "Can turn"@
    } else {
        "Can't turn"@
    }
}

/// The text that says why a command failed.
pub open spec fn error_text(error: ActionError) -> Seq<char> {
    match error {
        ActionError::DividerCell => "Not a playable cell"@,
        ActionError::CellOccupied => "Cell is occupied"@,
        ActionError::IllegalAction => "Not allowed now"@,
    }
}

/// The symbol of the cell `index` that holds `occupant`: `|` in the divider
/// column, `-` in the rest of the divider row, and elsewhere `.` for an empty
/// cell, `X` for a piece of player `One` and `O` for one of player `Two`.
pub open spec fn cell_symbol(index: int, occupant: Cell) -> char {
    if index % 7 == 3 {
        '|'
    } else if index / 7 == 3 {
        '-'
    } else {
        match occupant {
            Cell::Empty => '.',
            Cell::Occupied(Player::One) => 'X',
            Cell::Occupied(Player::Two) => 'O',
        }
    }
}

/// The seven rows of symbols that show the board `cells`.
pub open spec fn rows_show(rows: Seq<Vec<char>>, cells: Seq<Cell>) -> bool {
    &&& rows.len() == 7
    &&& forall|row: int| 0 <= row < 7 ==> (#[trigger] rows[row])@.len() == 7
    &&& forall|row: int, col: int|
        0 <= row < 7 && 0 <= col < 7 ==> #[trigger] rows[row]@[col] == cell_symbol(
            row * 7 + col,
            cells[row * 7 + col],
        )
}

/// The name `player` is shown under.
pub fn player_label(player: Player) -> (label: &'static str)
    ensures
        label@ == player_text(player),
{
    match player {
        Player::One => "One",
        Player::Two => "Two",
    }
}

/// The text that says whether a piece may be placed.
pub fn place_label(can_place: bool) -> (label: &'static str)
    ensures
        label@ == place_text(can_place),
{
    if can_place {
        "Can place"
    } else {
        "Can't place"
    }
}

/// The text that says whether a piece may be turned.
pub fn turn_label(can_turn: bool) -> (label: &'static str)
    ensures
        label@ == turn_text(can_turn),
{
    if can_turn {
        "Can turn"
    } else {
        "Can't turn"
    }
}

/// The text that says why a command failed.
pub fn error_label(error: ActionError) -> (label: &'static str)
    ensures
        label@ == error_text(error),
{
    match error {
        ActionError::DividerCell => "Not a playable cell",
        ActionError::CellOccupied => "Cell is occupied",
        ActionError::IllegalAction => "Not allowed now",
    }
}

/// The symbol of the cell `index` that holds `occupant`.
pub fn symbol_for(index: usize, occupant: Cell) -> (symbol: char)
    ensures
        symbol == cell_symbol(index as int, occupant),
{
    if index % 7 == 3 {
        '|'
    } else if index / 7 == 3 {
        '-'
    } else {
        match occupant {
            Cell::Empty => '.',
            Cell::Occupied(Player::One) => 'X',
            Cell::Occupied(Player::Two) => 'O',
        }
    }
}

/// The board as seven rows of seven symbols, top row first.
pub fn board_rows(occupancy: &[Cell; 49]) -> (rows: Vec<Vec<char>>)
    ensures
        rows_show(rows@, occupancy@),
{
    let mut rows: Vec<Vec<char>> = Vec::new();
    let mut row: usize = 0;
    while row < 7
        invariant
            row <= 7,
            rows@.len() == row,
            forall|r: int| 0 <= r < row ==> (#[trigger] rows@[r])@.len() == 7,
            forall|r: int, c: int|
                0 <= r < row && 0 <= c < 7 ==> #[trigger] rows@[r]@[c] == cell_symbol(
                    r * 7 + c,
                    occupancy@[r * 7 + c],
                ),
        decreases 7 - row,
    {
        let mut symbols: Vec<char> = Vec::new();
        let mut col: usize = 0;
        while col < 7
            invariant
                row < 7,
                col <= 7,
                symbols@.len() == col,
                forall|c: int|
                    0 <= c < col ==> #[trigger] symbols@[c] == cell_symbol(
                        row * 7 + c,
                        occupancy@[row * 7 + c],
                    ),
            decreases 7 - col,
        {
            let index: usize = row * 7 + col;
            symbols.push(symbol_for(index, occupancy[index]));
            col = col + 1;
        }
        rows.push(symbols);
        row = row + 1;
    }
    rows
}

} // verus!
