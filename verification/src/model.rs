//! The game as a state machine over plain mathematical values: what a state
//! is, which states are valid, and what every command does to a state.

use vstd::prelude::*;
use crate::board::{
    cells_after_placement, cells_valid, empty_cells, placement_verdict, Cell, PlacementError,
};
use crate::grid::{cursor_after, divider_at, Direction};
use crate::player::Player;
use crate::rules::TurnRule;

verus! {

/// The two steps of a player's turn.
#[derive(Clone, Copy, Debug, PartialEq, Eq, Structural)]
pub enum TurnPhase {
    /// The active player has yet to place a piece.
    AwaitingPlacement,
    /// The active player has placed a piece and has yet to turn it.
    AwaitingTurnAction,
}

/// A command from the input side.
#[derive(Clone, Copy, Debug, PartialEq, Eq, Structural)]
pub enum Command {
    /// Move the cursor one step.
    MoveCursor(Direction),
    /// Act on the cell under the cursor: place a piece, or turn it.
    ActivateCell,
    /// End the run.
    Quit,
}

/// What the run loop does after a command that was carried out.
#[derive(Clone, Copy, Debug, PartialEq, Eq, Structural)]
pub enum Control {
    /// Go on with the next command.
    Continue,
    /// Leave the loop.
    Stop,
}

/// Why a command was not carried out. The state is then as it was.
#[derive(Clone, Copy, Debug, PartialEq, Eq, Structural)]
pub enum ActionError {
    /// A piece cannot be placed on a divider cell.
    DividerCell,
    /// A piece cannot be placed on a cell that holds one.
    CellOccupied,
    /// The command is not valid in the current phase.
    IllegalAction,
}

/// The error of a command that failed because a placement failed.
pub open spec fn action_error(error: PlacementError) -> ActionError {
    match error {
        PlacementError::DividerCell => ActionError::DividerCell,
        PlacementError::CellOccupied => ActionError::CellOccupied,
    }
}

impl ActionError {
    /// The error of a command that failed because a placement failed.
    pub fn from_placement(error: PlacementError) -> (converted: ActionError)
        ensures
            converted == action_error(error),
    {
        match error {
            PlacementError::DividerCell => ActionError::DividerCell,
            PlacementError::CellOccupied => ActionError::CellOccupied,
        }
    }
}

/// A state of the game as a mathematical value.
pub struct GameView {
    /// The 49 cells by flattened index.
    pub cells: Seq<Cell>,
    /// The index of the selected cell.
    pub cursor: int,
    /// Whose turn it is.
    pub active_player: Player,
    /// Which step of the turn is due.
    pub phase: TurnPhase,
}

impl GameView {
    /// The state a game starts in: an empty board, the cursor on cell 0, and
    /// player `One` about to place a piece.
    pub open spec fn initial() -> GameView {
        GameView {
            cells: empty_cells(),
            cursor: 0,
            active_player: Player::One,
            phase: TurnPhase::AwaitingPlacement,
        }
    }

    /// The state is one a game can be in: the board is valid and the cursor
    /// is on it.
    pub open spec fn valid(self) -> bool {
        &&& cells_valid(self.cells)
        &&& 0 <= self.cursor < 49
    }

    /// Whether the active player may place a piece.
    pub open spec fn can_place(self) -> bool {
        self.phase == TurnPhase::AwaitingPlacement
    }

    /// Whether the active player may turn a piece.
    pub open spec fn can_turn(self) -> bool {
        self.phase == TurnPhase::AwaitingTurnAction
    }

    /// The state after the cursor has moved one step in `direction`.
    pub open spec fn after_move(self, direction: Direction) -> GameView {
        GameView { cursor: cursor_after(self.cursor, direction), ..self }
    }

    /// Whether activating the cell under the cursor succeeds. While a
    /// placement is due it succeeds where a piece may be placed. While a
    /// turn-action is due it succeeds where `rule` allows one, and is an
    /// `IllegalAction` where it does not.
    pub open spec fn activation_verdict<R: TurnRule>(self, rule: &R) -> Result<(), ActionError> {
        match self.phase {
            TurnPhase::AwaitingPlacement => match placement_verdict(self.cells, self.cursor) {
                Ok(()) => Ok(()),
                Err(error) => Err(action_error(error)),
            },
            TurnPhase::AwaitingTurnAction => if rule.legal(
                self.cells,
                self.cursor,
                self.active_player,
            ) {
                Ok(())
            } else {
                Err(ActionError::IllegalAction)
            },
        }
    }

    /// The state after the cell under the cursor has been activated. A
    /// placement puts the active player's piece there and makes the
    /// turn-action due. A turn-action changes the board as `rule` says and
    /// hands the turn to the other player, who is to place a piece. A failed
    /// activation changes nothing.
    pub open spec fn after_activation<R: TurnRule>(self, rule: &R) -> GameView {
        if self.activation_verdict(rule) is Err {
            self
        } else {
            match self.phase {
                TurnPhase::AwaitingPlacement => GameView {
                    cells: cells_after_placement(self.cells, self.cursor, self.active_player),
                    phase: TurnPhase::AwaitingTurnAction,
                    ..self
                },
                TurnPhase::AwaitingTurnAction => GameView {
                    cells: rule.turned(self.cells, self.cursor, self.active_player),
                    active_player: self.active_player.opponent(),
                    phase: TurnPhase::AwaitingPlacement,
                    ..self
                },
            }
        }
    }

    /// What `command` reports: how the run goes on, or why the command failed.
    pub open spec fn verdict<R: TurnRule>(self, command: Command, rule: &R) -> Result<Control, ActionError> {
        match command {
            Command::MoveCursor(_) => Ok(Control::Continue),
            Command::ActivateCell => match self.activation_verdict(rule) {
                Ok(()) => Ok(Control::Continue),
                Err(error) => Err(error),
            },
            Command::Quit => Ok(Control::Stop),
        }
    }

    /// The state after `command`.
    pub open spec fn after<R: TurnRule>(self, command: Command, rule: &R) -> GameView {
        match command {
            Command::MoveCursor(direction) => self.after_move(direction),
            Command::ActivateCell => self.after_activation(rule),
            Command::Quit => self,
        }
    }
}

/// The initial state is valid.
pub proof fn lemma_initial_is_valid()
    ensures
        GameView::initial().valid(),
{
}

/// No command leads from a valid state to an invalid one: the cursor stays on
/// the board and no divider cell ever holds a piece.
pub proof fn lemma_commands_keep_valid<R: TurnRule>(state: GameView, command: Command, rule: &R)
    requires
        state.valid(),
    ensures
        state.after(command, rule).valid(),
{
    if command == Command::ActivateCell && state.activation_verdict(rule) is Ok && state.phase
        == TurnPhase::AwaitingTurnAction {
        rule.lemma_turned_is_valid(state.cells, state.cursor, state.active_player);
    }
}

/// A command that fails changes nothing.
pub proof fn lemma_failure_changes_nothing<R: TurnRule>(
    state: GameView,
    command: Command,
    rule: &R,
)
    requires
        state.verdict(command, rule) is Err,
    ensures
        state.after(command, rule) == state,
{
}

/// Moving the cursor and quitting are always carried out.
pub proof fn lemma_move_and_quit_never_fail<R: TurnRule>(
    state: GameView,
    direction: Direction,
    rule: &R,
)
    ensures
        state.verdict(Command::MoveCursor(direction), rule) == Ok::<Control, ActionError>(
            Control::Continue,
        ),
        state.verdict(Command::Quit, rule) == Ok::<Control, ActionError>(Control::Stop),
        state.after(Command::Quit, rule) == state,
{
}

/// In every state exactly one of placing and turning is permitted.
pub proof fn lemma_one_action_is_due(state: GameView)
    ensures
        state.can_place() != state.can_turn(),
{
}

/// Moving the cursor changes the cursor alone.
pub proof fn lemma_move_changes_cursor_alone(state: GameView, direction: Direction)
    ensures
        state.after_move(direction).cells == state.cells,
        state.after_move(direction).active_player == state.active_player,
        state.after_move(direction).phase == state.phase,
        state.after_move(direction).cursor == cursor_after(state.cursor, direction),
{
}

/// With the cursor on a divider cell a placement fails with `DividerCell`,
/// whatever the rule and whoever is to move.
pub proof fn lemma_no_placement_on_divider<R: TurnRule>(state: GameView, rule: &R)
    requires
        state.can_place(),
        divider_at(state.cursor),
    ensures
        state.activation_verdict(rule) == Err::<(), ActionError>(ActionError::DividerCell),
        state.after_activation(rule) == state,
{
}

/// After a successful placement the piece stands under the cursor, placing is
/// no longer permitted and turning is; the same player is still to move.
pub proof fn lemma_placement_makes_turn_due<R: TurnRule>(state: GameView, rule: &R)
    requires
        state.valid(),
        state.can_place(),
        state.activation_verdict(rule) is Ok,
    ensures
        !state.after_activation(rule).can_place(),
        state.after_activation(rule).can_turn(),
        state.after_activation(rule).active_player == state.active_player,
        state.after_activation(rule).cursor == state.cursor,
        state.after_activation(rule).cells[state.cursor] == Cell::Occupied(state.active_player),
{
}

/// After a successful turn-action the other player is active and placing is
/// permitted again; the cursor has not moved.
pub proof fn lemma_turn_passes_the_move<R: TurnRule>(state: GameView, rule: &R)
    requires
        state.can_turn(),
        state.activation_verdict(rule) is Ok,
    ensures
        state.after_activation(rule).active_player == state.active_player.opponent(),
        state.after_activation(rule).active_player != state.active_player,
        state.after_activation(rule).can_place(),
        !state.after_activation(rule).can_turn(),
        state.after_activation(rule).cursor == state.cursor,
{
}

} // verus!
