//! A verified falling-block puzzle engine: a bounded grid accepts one
//! falling tetromino at a time, which can be rotated and shifted subject to
//! collision rules, merges into the grid when it can fall no further, and
//! drives row clearing and the score/level progression. Rendering, input
//! decoding and the real-time clock live outside the library; a host feeds
//! in discrete intents and gravity ticks and reads the state back.

use vstd::prelude::*;

pub mod color;
pub mod tetromino;
pub mod grid;
pub mod piece;
mod rng;
pub mod level;
pub mod game;

verus! {

/// Number of rows on the board.
pub const GRID_HEIGHT: usize = 20;

/// Number of columns on the board.
pub const GRID_WIDTH: usize = 10;

} // verus!
