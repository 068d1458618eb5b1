//! The rules of a grid-based snake game: toroidal movement, direction
//! buffering, growth and collision, and the title / playing / won / lost
//! mode machine that drives a round.

pub mod audio;
pub mod game;
pub mod grid;
mod rng;
pub mod snake;

pub use grid::{Direction, GridPosition, Key, CELL_SIZE, GRID_HEIGHT, GRID_WIDTH};
pub use snake::{Ate, Food, Segment, Snake};
pub use game::{Choice, GameState, Mode, OptionScreen, Tick, SCREEN_HEIGHT, SCREEN_WIDTH, TARGET_LENGTH};
pub use audio::{music_for, MusicPlan, Tracks};
