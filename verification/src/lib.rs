//! The simulation core of a falling-block puzzle game.
//!
//! The crate owns the playing field, the piece under control and the piece
//! that follows it, collision detection, locking, line clearing and the
//! lifecycle of a game. A host draws the display buffer and calls the
//! commands; nothing here draws or reads input.

pub mod board;
pub mod cell;
pub mod controlled;
pub mod game;
pub mod host;
pub mod mino;
pub mod model;
pub mod point;
mod random;
pub mod tetrimino;

pub use cell::{Cell, TetriminoKind, TetriminoState};
pub use controlled::ControlledTetrimino;
pub use game::Game;
pub use host::GameIO;
pub use model::{GameState, GameView};
pub use point::Point;
pub use tetrimino::Tetrimino;
