//! Geometry of the board: the flattened index space, the divider cross and
//! the arithmetic of cursor movement.
//!
//! A cell at `(row, col)` has the flattened index `row * 7 + col`. The cursor
//! moves over the 49 indices as over a flat ring: a step changes the index by
//! `±1` or `±7` and the result is reduced modulo 49 into `[0, 49)`. The grid
//! is therefore *not* a torus: `Left` from column 0 lands in the last column
//! of the previous row, and `Right` from the last column lands in column 0 of
//! the next row.

use vstd::prelude::*;

verus! {

/// Cells per row.
pub const WIDTH: usize = 7;

/// Rows of the board.
pub const HEIGHT: usize = 7;

/// Number of cells, dividers included.
pub const CELL_COUNT: usize = 49;

/// The row whose cells all belong to the divider.
pub const DIVIDER_ROW: usize = 3;

/// The column whose cells all belong to the divider.
pub const DIVIDER_COL: usize = 3;

/// A direction in which the cursor can step.
#[derive(Clone, Copy, Debug, PartialEq, Eq, Structural)]
pub enum Direction {
    Up,
    Down,
    Left,
    Right,
}

impl Direction {
    /// The direction that undoes a step in `self`.
    pub open spec fn spec_opposite(self) -> Direction {
        match self {
            Direction::Up => Direction::Down,
            Direction::Down => Direction::Up,
            Direction::Left => Direction::Right,
            Direction::Right => Direction::Left,
        }
    }

    /// The change of the flattened index that one step makes, before wrapping.
    pub open spec fn offset(self) -> int {
        match self {
            Direction::Up => -7,
            Direction::Down => 7,
            Direction::Left => -1,
            Direction::Right => 1,
        }
    }

    /// The direction that undoes a step in `self`.
    #[verifier::when_used_as_spec(spec_opposite)]
    pub fn opposite(self) -> (back: Direction)
        ensures
            back == self.spec_opposite(),
    {
        match self {
            Direction::Up => Direction::Down,
            Direction::Down => Direction::Up,
            Direction::Left => Direction::Right,
            Direction::Right => Direction::Left,
        }
    }
}

/// Whether `index` lies on the divider cross: in row 3 or in column 3.
pub open spec fn divider_at(index: int) -> bool {
    index / 7 == 3 || index % 7 == 3
}

/// The index the cursor reaches from `current` by one step in `direction`.
pub open spec fn cursor_after(current: int, direction: Direction) -> int {
    (current + direction.offset()) % 49
}

/// The index the cursor reaches from `current` by `steps` steps in `direction`.
pub open spec fn cursor_after_steps(current: int, direction: Direction, steps: nat) -> int
    decreases steps,
{
    if steps == 0 {
        current
    } else {
        cursor_after(cursor_after_steps(current, direction, (steps - 1) as nat), direction)
    }
}

/// The set of divider cells of the board.
pub open spec fn divider_cells() -> Set<int> {
    Set::new(|index: int| 0 <= index < 49 && divider_at(index))
}

/// Whether `index` lies on the divider cross.
pub fn is_divider(index: usize) -> (on_divider: bool)
    ensures
        on_divider == divider_at(index as int),
{
    index / WIDTH == DIVIDER_ROW || index % WIDTH == DIVIDER_COL
}

/// The row of the cell `index`.
pub fn row_of(index: usize) -> (row: usize)
    ensures
        row == index as int / 7,
{
    index / WIDTH
}

/// The column of the cell `index`.
pub fn col_of(index: usize) -> (col: usize)
    ensures
        col == index as int % 7,
{
    index % WIDTH
}

/// The flattened index of the cell at `(row, col)`.
pub fn index_of(row: usize, col: usize) -> (index: usize)
    requires
        row < 7,
        col < 7,
    ensures
        index == row * 7 + col,
        index < 49,
{
    row * WIDTH + col
}

/// Moves the cursor one step from `current` in `direction`, wrapping over the
/// flat ring of 49 indices. Defined for every `current`; on `[0, 49)` it is a
/// bijection of that range.
pub fn move_cursor(current: usize, direction: Direction) -> (next: usize)
    ensures
        next == cursor_after(current as int, direction),
        next < 49,
{
    let base: usize = current % CELL_COUNT;
    let forward: usize = match direction {
        Direction::Up => CELL_COUNT - WIDTH,
        Direction::Down => WIDTH,
        Direction::Left => CELL_COUNT - 1,
        Direction::Right => 1,
    };
    (base + forward) % CELL_COUNT
}

/// A step followed by a step in the opposite direction returns to the start.
pub proof fn lemma_move_is_invertible(index: int, direction: Direction)
    requires
        0 <= index < 49,
    ensures
        cursor_after(cursor_after(index, direction), direction.opposite()) == index,
{
}

/// A step never leaves the index space.
pub proof fn lemma_move_stays_on_board(index: int, direction: Direction)
    ensures
        0 <= cursor_after(index, direction) < 49,
{
}

/// `steps` steps in one direction change the index by `steps` times the
/// direction's offset, modulo 49.
pub proof fn lemma_steps_add_up(index: int, direction: Direction, steps: nat)
    requires
        0 <= index < 49,
    ensures
        cursor_after_steps(index, direction, steps) == (index + steps * direction.offset()) % 49,
    decreases steps,
{
    if steps > 0 {
        lemma_steps_add_up(index, direction, (steps - 1) as nat);
        let offset = direction.offset();
        let before = index + (steps - 1) * offset;
        assert(steps * offset == (steps - 1) * offset + offset) by (nonlinear_arith);
        lemma_wrap_absorbs(before, offset);
    }
}

/// Reducing modulo 49 before adding changes nothing after the final reduction.
proof fn lemma_wrap_absorbs(a: int, b: int)
    ensures
        (a % 49 + b) % 49 == (a + b) % 49,
{
}

/// Seven steps in one direction under the flat-ring wrap: vertically they
/// lead back to the start; horizontally they lead to the cell that a single
/// vertical step reaches (`Right` as `Down`, `Left` as `Up`). Either way the
/// cursor ends in the column it started in.
pub proof fn lemma_seven_steps(index: int, direction: Direction)
    requires
        0 <= index < 49,
    ensures
        direction == Direction::Up || direction == Direction::Down ==> cursor_after_steps(
            index,
            direction,
            7,
        ) == index,
        direction == Direction::Right ==> cursor_after_steps(index, direction, 7) == cursor_after(
            index,
            Direction::Down,
        ),
        direction == Direction::Left ==> cursor_after_steps(index, direction, 7) == cursor_after(
            index,
            Direction::Up,
        ),
        cursor_after_steps(index, direction, 7) % 7 == index % 7,
{
    lemma_steps_add_up(index, direction, 7);
}

/// Exactly 13 of the 49 cells are divider cells: the seven of row 3 and the
/// seven of column 3, which share the centre.
pub proof fn lemma_divider_count()
    ensures
        divider_cells().finite(),
        divider_cells().len() == 13,
{
    let listed: Set<int> = set![3, 10, 17, 21, 22, 23, 24, 25, 26, 27, 31, 38, 45];
    assert(divider_cells() =~= listed);
}

/// Row and column identify a cell: the index is `row * 7 + col`.
pub proof fn lemma_row_col_identify(index: int)
    requires
        0 <= index < 49,
    ensures
        0 <= index / 7 < 7,
        0 <= index % 7 < 7,
        (index / 7) * 7 + index % 7 == index,
{
}

} // verus!
