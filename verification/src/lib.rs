//! Conway's Game of Life on a bounded rectangular grid.
//!
//! The cells live in a packed bit vector; the rules of the game are stated
//! once, over a mathematical board, and every executable function is proved
//! against that statement.

pub mod bits;
pub mod board;
pub mod grid;
pub mod engine;
pub mod random;
pub mod seeder;
pub mod render;
pub mod patterns;

pub use crate::engine::{live_neighbors, next_state, step};
pub use crate::grid::{GridError, GridState, MAX_CELLS};
pub use crate::seeder::{seed, seed_from_draws};
