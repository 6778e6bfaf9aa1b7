//! A turn-based grid snake engine: a body of connected segments moves
//! across a bounded two-dimensional grid, grows by consuming randomly
//! placed food, and the game ends when the body leaves the grid or runs
//! into itself.
//!
//! The crate is the movement, collision, food-placement and rendering
//! core; the loop that reads input, times ticks and prints rows is an
//! external collaborator driving [`game::new_game`] and [`game::advance`].

pub mod food;
pub mod game;
pub mod geometry;
pub mod render;
pub mod snake;
