//! The board: 49 cells, each empty or occupied by a player, of which the
//! divider cells stay empty for ever.

use vstd::prelude::*;
use crate::grid::{divider_at, is_divider, CELL_COUNT};
use crate::player::Player;

verus! {

/// What a cell holds.
#[derive(Clone, Copy, Debug, PartialEq, Eq, Structural)]
pub enum Cell {
    Empty,
    Occupied(Player),
}

/// Why a piece could not be placed.
#[derive(Clone, Copy, Debug, PartialEq, Eq, Structural)]
pub enum PlacementError {
    /// The cell belongs to the divider and is not playable.
    DividerCell,
    /// The cell already holds a piece.
    CellOccupied,
}

/// The board with no piece on it.
pub open spec fn empty_cells() -> Seq<Cell> {
    Seq::new(49, |index: int| Cell::Empty)
}

/// The cells form a board: there are 49 of them and no divider cell holds a
/// piece.
pub open spec fn cells_valid(cells: Seq<Cell>) -> bool {
    &&& cells.len() == 49
    &&& forall|index: int| 0 <= index < 49 && divider_at(index) ==> cells[index] == Cell::Empty
}

/// Whether a piece may be placed on `index`: refused with `DividerCell` on
/// the divider, else with `CellOccupied` where a piece already stands.
pub open spec fn placement_verdict(cells: Seq<Cell>, index: int) -> Result<(), PlacementError> {
    if divider_at(index) {
        Err(PlacementError::DividerCell)
    } else if cells[index] != Cell::Empty {
        Err(PlacementError::CellOccupied)
    } else {
        Ok(())
    }
}

/// The cells after `player` has tried to place a piece on `index`: the piece
/// stands there if the placement was allowed, and nothing has changed if not.
pub open spec fn cells_after_placement(cells: Seq<Cell>, index: int, player: Player) -> Seq<Cell> {
    if placement_verdict(cells, index) is Ok {
        cells.update(index, Cell::Occupied(player))
    } else {
        cells
    }
}

/// The 7×7 board. Its view is the sequence of its 49 cells by flattened index.
#[derive(Clone, Copy, Debug, PartialEq, Eq)]
pub struct Board {
    cells: [Cell; 49],
}

impl View for Board {
    type V = Seq<Cell>;

    closed spec fn view(&self) -> Seq<Cell> {
        self.cells@
    }
}

impl Board {
    /// What holds of every board: its cells are valid.
    #[verifier::type_invariant]
    pub open spec fn well_formed(self) -> bool {
        cells_valid(self@)
    }

    /// The board with no piece on it.
    pub fn new() -> (board: Board)
        ensures
            board@ == empty_cells(),
            cells_valid(board@),
    {
        let board = Board { cells: [Cell::Empty; 49] };
        assert(board@ =~= empty_cells());
        board
    }

    /// What the cell `index` holds.
    pub fn occupant(&self, index: usize) -> (cell: Cell)
        requires
            index < 49,
        ensures
            cell == self@[index as int],
            divider_at(index as int) ==> cell == Cell::Empty,
    {
        proof {
            use_type_invariant(self);
        }
        self.cells[index]
    }

    /// All 49 cells by flattened index.
    pub fn cells(&self) -> (cells: [Cell; 49])
        ensures
            cells@ == self@,
            cells_valid(cells@),
    {
        proof {
            use_type_invariant(self);
        }
        self.cells
    }

    /// Places a piece of `player` on the cell `index`. A divider cell is
    /// refused with `DividerCell`, an occupied cell with `CellOccupied`; the
    /// board is then left as it was.
    pub fn place(&mut self, index: usize, player: Player) -> (placed: Result<(), PlacementError>)
        requires
            index < 49,
        ensures
            placed == placement_verdict(old(self)@, index as int),
            final(self)@ == cells_after_placement(old(self)@, index as int, player),
            cells_valid(final(self)@),
    {
        proof {
            use_type_invariant(&*self);
        }
        if is_divider(index) {
            return Err(PlacementError::DividerCell);
        }
        match self.cells[index] {
            Cell::Occupied(_) => Err(PlacementError::CellOccupied),
            Cell::Empty => {
                self.cells[index] = Cell::Occupied(player);
                Ok(())
            },
        }
    }
}

/// No piece can be placed on a divider cell: whatever the board holds and
/// whoever places, the placement is refused with `DividerCell` and the board
/// stays as it is.
pub proof fn lemma_divider_refuses_placement(cells: Seq<Cell>, index: int, player: Player)
    requires
        divider_at(index),
    ensures
        placement_verdict(cells, index) == Err::<(), PlacementError>(PlacementError::DividerCell),
        cells_after_placement(cells, index, player) == cells,
{
}

/// A placement succeeds exactly on an empty cell off the divider, and then
/// changes that cell alone.
pub proof fn lemma_placement_fills_one_cell(cells: Seq<Cell>, index: int, player: Player)
    requires
        cells_valid(cells),
        0 <= index < 49,
    ensures
        placement_verdict(cells, index) is Ok <==> !divider_at(index) && cells[index]
            == Cell::Empty,
        placement_verdict(cells, index) is Ok ==> cells_after_placement(cells, index, player)[index]
            == Cell::Occupied(player),
        forall|other: int|
            0 <= other < 49 && other != index ==> cells_after_placement(cells, index, player)[other]
                == cells[other],
        cells_valid(cells_after_placement(cells, index, player)),
{
}

impl Default for Board {
    /// The board with no piece on it.
    fn default() -> (board: Board)
        ensures
            board@ == empty_cells(),
    {
        Board::new()
    }
}

} // verus!
