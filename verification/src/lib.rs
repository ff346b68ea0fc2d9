//! The simulation core of a stacker arcade game: a block slides to and fro
//! across a lane, the player freezes it, what overhangs the row below is cut
//! off, and the tower grows by one row until it is complete or a block is lost.

pub mod block;
pub mod footprint;
pub mod game;
pub mod grid;
pub mod laws;
pub mod oscillator;
pub mod progress;
pub mod score;
pub mod state;

pub use block::{width_for_level, Block, Direction};
pub use footprint::Footprint;
pub use game::Game;
pub use grid::Grid;
pub use oscillator::Oscillator;
pub use progress::{Outcome, Progress};
pub use score::Score;
pub use state::{playable, GameState, PlacedRow, Placement, Snapshot, Stage};
