//! From keys to commands.

use vstd::prelude::*;
use crate::grid::Direction;
use crate::model::Command;

verus! {

/// A key press, as far as the game tells keys apart.
#[derive(Clone, Copy, Debug, PartialEq, Eq, Structural)]
pub enum Key {
    /// A key that produces a character.
    Char(char),
    /// The enter key.
    Enter,
    /// Any other key.
    Other,
}

/// The command that a key stands for, if any.
///
/// `w` and `a` step back by a row and by a cell, `d` and `s` step forward by
/// a row and by a cell; enter and the space bar activate the cell under the
/// cursor; `q` quits. Every other key means nothing.
pub open spec fn key_command(key: Key) -> Option<Command> {
    match key {
        Key::Char(c) => if c == 'q' {
            Some(Command::Quit)
        } else if c == 'w' {
            Some(Command::MoveCursor(Direction::Up))
        } else if c == 'a' {
            Some(Command::MoveCursor(Direction::Left))
        } else if c == 's' {
            Some(Command::MoveCursor(Direction::Right))
        } else if c == 'd' {
            Some(Command::MoveCursor(Direction::Down))
        } else if c == ' ' {
            Some(Command::ActivateCell)
        } else {
            None
        },
        Key::Enter => Some(Command::ActivateCell),
        Key::Other => None,
    }
}

/// The command that `key` stands for, or `None` for a key without meaning.
pub fn command_for_key(key: Key) -> (command: Option<Command>)
    ensures
        command == key_command(key),
{
    match key {
        Key::Char(c) => {
            if c == 'q' {
                Some(Command::Quit)
            } else if c == 'w' {
                Some(Command::MoveCursor(Direction::Up))
            } else if c == 'a' {
                Some(Command::MoveCursor(Direction::Left))
            } else if c == 's' {
                Some(Command::MoveCursor(Direction::Right))
            } else if c == 'd' {
                Some(Command::MoveCursor(Direction::Down))
            } else if c == ' ' {
                Some(Command::ActivateCell)
            } else {
                None
            }
        },
        Key::Enter => Some(Command::ActivateCell),
        Key::Other => None,
    }
}

} // verus!
