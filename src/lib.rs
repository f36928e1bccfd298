//! A single ball bouncing inside a rectangular frame.
//!
//! The ball moves one cell per tick on each axis and reverses the direction of
//! an axis when it reaches that axis's wall. Coordinates are 1-based; the left
//! and top walls are at 1, the right wall at `width + 2` and the bottom wall at
//! `height + 2`. The render loop's response to each polled input (quit,
//! pause, resize, tick) is decided here too.
pub mod ball;
pub mod control;
pub mod game;

pub use ball::{Ball, Frame, HorizDir, VertDir, MIN_FRAME_SIDE};
pub use control::{next, Action, Input, Mode};
pub use game::{create_game, Game, SizeError, WINDOW_FRAME_DIFF};
