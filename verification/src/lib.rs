//! A game of snake on a square grid, as a verified state machine.
//!
//! The game is a mathematical model (`model`), a set of laws proved of it
//! (`laws`, `speed`), and executable code that is proved to follow the
//! model (`snake`, `game`, `render`). Reading the keyboard, keeping time
//! and painting are left to the program that uses the library: it hands in
//! keys and whether a tick is due, and gets back what to draw.

pub mod grid;
pub mod input;
pub mod model;
pub mod laws;
pub mod speed;
pub mod random;
pub mod snake;
pub mod game;
pub mod render;

pub use crate::game::{FrameAction, GameState};
pub use crate::grid::{get_opposite, Direction, Point, DOWN, LEFT, RIGHT, SQUARES, UP};
pub use crate::input::{get_direction, Key};
pub use crate::render::{render, score_text, DrawCommand};
pub use crate::snake::{add_direction, check_for_border_collisions, perform_key, Snake};
