//! A two-player, turn-based game on a 7×7 grid that a cross-shaped divider
//! splits into four 3×3 quadrants.

pub mod board;
pub mod display;
pub mod game;
pub mod grid;
pub mod input;
pub mod model;
pub mod player;
pub mod rules;
