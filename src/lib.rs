//! A terminal snake game's state: positions, directions, the snake's
//! movement on a wrapping field, food, and the per-tick rules of the game.

pub mod geometry;
pub mod snake;
pub mod food;
pub mod input;
pub mod game;
