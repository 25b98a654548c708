//! The rules of a snake game played on a five by five grid whose edges wrap
//! around: headings and turns, the step of a cell across the grid, the snake
//! that advances one cell per tick, the food it looks for, and the picture of
//! both as a matrix of lamps.
//!
//! Every function carries a contract over a mathematical model of its
//! arguments, and the laws that tie the functions together are proof
//! functions beside them.

pub mod body;
pub mod direction;
pub mod display;
pub mod food;
pub mod grid;
pub mod snake;

pub use body::CAPACITY;
pub use direction::Direction;
pub use display::{render, CLEAN_DISPLAY, FRAME_DURATION_MS};
pub use food::Food;
pub use grid::{Position, SCREEN_SIZE};
pub use snake::{Snake, SnakeView};
