//! Core logic of a grid-based snake game: the snake's movement and
//! collision rules, food placement, and the game orchestration that
//! ties them together. Rendering and windowing live outside this crate.

pub mod food;
pub mod game;
pub mod snake;
