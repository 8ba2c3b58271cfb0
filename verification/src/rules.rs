//! The turn-action rule: what "turning" the piece under the cursor means.
//!
//! The game fixes when a turn-action is due and what follows a legal one (the
//! turn passes to the other player). Which turn-actions are legal and what
//! they do to the board is left to a rule that the caller plugs in.

use vstd::prelude::*;
use crate::board::{cells_valid, Board, Cell};
use crate::player::Player;

verus! {

/// Decides the turn-action of a game.
///
/// A rule is a pair of specification functions, `legal` and `turned`, and the
/// executable `turn` that carries them out on a board. A rule never leaves a
/// piece on a divider cell.
pub trait TurnRule {
    /// Whether `player` may turn the piece at `cursor` on the board `cells`.
    spec fn legal(&self, cells: Seq<Cell>, cursor: int, player: Player) -> bool;

    /// The cells after `player` has turned the piece at `cursor`. The game
    /// asks for them only where the turn-action is legal.
    spec fn turned(&self, cells: Seq<Cell>, cursor: int, player: Player) -> Seq<Cell>;

    /// Turning leaves a valid board valid.
    proof fn lemma_turned_is_valid(&self, cells: Seq<Cell>, cursor: int, player: Player)
        requires
            cells_valid(cells),
            0 <= cursor < 49,
        ensures
            cells_valid(self.turned(cells, cursor, player)),
    ;

    /// Turns the piece at `cursor` for `player` if the rule allows it, and
    /// says whether it did. A refused turn-action leaves the board as it was.
    fn turn(&self, board: &mut Board, cursor: usize, player: Player) -> (done: bool)
        requires
            cursor < 49,
        ensures
            done == self.legal(old(board)@, cursor as int, player),
            done ==> final(board)@ == self.turned(old(board)@, cursor as int, player),
            !done ==> final(board)@ == old(board)@,
    ;
}

/// The rule under which every turn-action is legal and moves no piece.
#[derive(Clone, Copy, Debug, Default)]
pub struct AnyTurn;

impl TurnRule for AnyTurn {
    open spec fn legal(&self, cells: Seq<Cell>, cursor: int, player: Player) -> bool {
        true
    }

    open spec fn turned(&self, cells: Seq<Cell>, cursor: int, player: Player) -> Seq<Cell> {
        cells
    }

    proof fn lemma_turned_is_valid(&self, cells: Seq<Cell>, cursor: int, player: Player) {
    }

    fn turn(&self, board: &mut Board, cursor: usize, player: Player) -> (done: bool) {
        true
    }
}

/// The rule under which no turn-action is legal: once a piece is placed, the
/// game waits for a rule that says how to turn it.
#[derive(Clone, Copy, Debug, Default)]
pub struct NoTurn;

impl TurnRule for NoTurn {
    open spec fn legal(&self, cells: Seq<Cell>, cursor: int, player: Player) -> bool {
        false
    }

    open spec fn turned(&self, cells: Seq<Cell>, cursor: int, player: Player) -> Seq<Cell> {
        cells
    }

    proof fn lemma_turned_is_valid(&self, cells: Seq<Cell>, cursor: int, player: Player) {
    }

    fn turn(&self, board: &mut Board, cursor: usize, player: Player) -> (done: bool) {
        false
    }
}

} // verus!
