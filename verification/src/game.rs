//! The game state and the commands that change it.

use vstd::prelude::*;
use crate::board::{Board, Cell};
use crate::grid::{divider_at, move_cursor, Direction};
use crate::model::{ActionError, Command, Control, GameView, TurnPhase};
use crate::player::Player;
use crate::rules::TurnRule;

verus! {

/// What the rendering side gets to see of a state.
#[derive(Clone, Copy, Debug, PartialEq, Eq)]
pub struct Snapshot {
    /// Whose turn it is.
    pub active_player: Player,
    /// The index of the selected cell.
    pub cursor_index: usize,
    /// Whether the active player may place a piece.
    pub can_place: bool,
    /// Whether the active player may turn a piece.
    pub can_turn: bool,
    /// What each of the 49 cells holds, by flattened index.
    pub board_occupancy: [Cell; 49],
}

impl Snapshot {
    /// The snapshot shows the state `state`.
    pub open spec fn shows(self, state: GameView) -> bool {
        &&& self.active_player == state.active_player
        &&& self.cursor_index == state.cursor
        &&& self.can_place == state.can_place()
        &&& self.can_turn == state.can_turn()
        &&& self.board_occupancy@ == state.cells
    }
}

/// The state of a game: the board, the cursor, the active player and the
/// phase of that player's turn. It is valid at all times.
#[derive(Clone, Copy, Debug, PartialEq, Eq)]
pub struct GameState {
    board: Board,
    cursor: usize,
    active_player: Player,
    phase: TurnPhase,
}

impl View for GameState {
    type V = GameView;

    closed spec fn view(&self) -> GameView {
        GameView {
            cells: self.board@,
            cursor: self.cursor as int,
            active_player: self.active_player,
            phase: self.phase,
        }
    }
}

impl GameState {
    /// What holds of every game state: it is a valid state of the game.
    #[verifier::type_invariant]
    pub open spec fn well_formed(self) -> bool {
        self@.valid()
    }

    /// The state a game starts in.
    pub fn new() -> (state: GameState)
        ensures
            state@ == GameView::initial(),
            state@.valid(),
    {
        GameState {
            board: Board::new(),
            cursor: 0,
            active_player: Player::One,
            phase: TurnPhase::AwaitingPlacement,
        }
    }

    /// The index of the selected cell.
    pub fn cursor(&self) -> (index: usize)
        ensures
            index == self@.cursor,
            index < 49,
    {
        proof {
            use_type_invariant(self);
        }
        self.cursor
    }

    /// Whose turn it is.
    pub fn active_player(&self) -> (player: Player)
        ensures
            player == self@.active_player,
    {
        self.active_player
    }

    /// Which step of the active player's turn is due.
    pub fn phase(&self) -> (phase: TurnPhase)
        ensures
            phase == self@.phase,
    {
        self.phase
    }

    /// Whether the active player may place a piece.
    pub fn can_place(&self) -> (permitted: bool)
        ensures
            permitted == self@.can_place(),
    {
        self.phase == TurnPhase::AwaitingPlacement
    }

    /// Whether the active player may turn a piece.
    pub fn can_turn(&self) -> (permitted: bool)
        ensures
            permitted == self@.can_turn(),
    {
        self.phase == TurnPhase::AwaitingTurnAction
    }

    /// What the cell `index` holds.
    pub fn occupant(&self, index: usize) -> (cell: Cell)
        requires
            index < 49,
        ensures
            cell == self@.cells[index as int],
            divider_at(index as int) ==> cell == Cell::Empty,
    {
        proof {
            use_type_invariant(self);
        }
        self.board.occupant(index)
    }

    /// The board.
    pub fn board(&self) -> (board: &Board)
        ensures
            board@ == self@.cells,
    {
        &self.board
    }

    /// What the rendering side gets to see of this state.
    pub fn snapshot(&self) -> (snapshot: Snapshot)
        ensures
            snapshot.shows(self@),
            self@.valid(),
    {
        proof {
            use_type_invariant(self);
        }
        Snapshot {
            active_player: self.active_player,
            cursor_index: self.cursor,
            can_place: self.can_place(),
            can_turn: self.can_turn(),
            board_occupancy: self.board.cells(),
        }
    }

    /// Moves the cursor one step in `direction`, wrapping over the flat ring
    /// of the 49 cells. Nothing else changes.
    pub fn move_cursor(&mut self, direction: Direction)
        ensures
            final(self)@ == old(self)@.after_move(direction),
            final(self)@.valid(),
    {
        proof {
            use_type_invariant(&*self);
        }
        self.cursor = move_cursor(self.cursor, direction);
    }

    /// Activates the cell under the cursor. While a placement is due, the
    /// active player's piece is placed there, or the placement is refused
    /// with `DividerCell` or `CellOccupied`. While a turn-action is due, the
    /// piece there is turned as `rule` says and the turn passes to the other
    /// player, or the turn-action is refused with `IllegalAction`. A refused
    /// activation leaves the state as it was.
    pub fn activate_cell<R: TurnRule>(&mut self, rule: &R) -> (outcome: Result<(), ActionError>)
        ensures
            outcome == old(self)@.activation_verdict(rule),
            final(self)@ == old(self)@.after_activation(rule),
            final(self)@.valid(),
    {
        proof {
            use_type_invariant(&*self);
        }
        let mut board = self.board;
        match self.phase {
            TurnPhase::AwaitingPlacement => {
                match board.place(self.cursor, self.active_player) {
                    Ok(()) => {
                        self.board = board;
                        self.phase = TurnPhase::AwaitingTurnAction;
                        Ok(())
                    },
                    Err(error) => Err(ActionError::from_placement(error)),
                }
            },
            TurnPhase::AwaitingTurnAction => {
                if rule.turn(&mut board, self.cursor, self.active_player) {
                    proof {
                        use_type_invariant(&board);
                    }
                    self.board = board;
                    self.active_player = self.active_player.opponent();
                    self.phase = TurnPhase::AwaitingPlacement;
                    Ok(())
                } else {
                    Err(ActionError::IllegalAction)
                }
            },
        }
    }

    /// Carries out one command and says how the run goes on. `MoveCursor`
    /// and `Quit` always succeed; `Quit` changes nothing and asks the loop
    /// to stop. A command that fails leaves the state as it was.
    pub fn apply<R: TurnRule>(&mut self, command: Command, rule: &R) -> (outcome: Result<Control, ActionError>)
        ensures
            outcome == old(self)@.verdict(command, rule),
            final(self)@ == old(self)@.after(command, rule),
            final(self)@.valid(),
    {
        proof {
            use_type_invariant(&*self);
        }
        match command {
            Command::MoveCursor(direction) => {
                self.move_cursor(direction);
                Ok(Control::Continue)
            },
            Command::ActivateCell => match self.activate_cell(rule) {
                Ok(()) => Ok(Control::Continue),
                Err(error) => Err(error),
            },
            Command::Quit => Ok(Control::Stop),
        }
    }
}

impl Default for GameState {
    /// The state a game starts in.
    fn default() -> (state: GameState)
        ensures
            state@ == GameView::initial(),
    {
        GameState::new()
    }
}

} // verus!
