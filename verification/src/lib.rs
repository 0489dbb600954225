//! Core simulation of a two-paddle ball game: a rectangular arena of four
//! walls, two vertically moving paddles, a bouncing ball, a small menu, and
//! the state machine that ties them together.
//!
//! All geometry lives on a fixed-point grid: every coordinate, size and
//! per-tick velocity is an `i64` counted in subunits, with [`SCALE`] subunits
//! to one world unit. The origin sits at the arena center, `x` grows to the
//! right and `y` grows downward. Colors are 8-bit RGBA channels. The host
//! window/render/input layer converts to floating point at its own edge.

use vstd::prelude::*;

pub mod ball;
pub mod color;
pub mod field;
pub mod game;
pub mod menu;
pub mod menu_item;
pub mod player;
pub mod wall;

verus! {

/// Fixed-point subunits per world-coordinate unit.
pub const SCALE: i64 = 100;

/// Largest magnitude a coordinate may reach before arithmetic on it is
/// no longer known to stay inside `i64`; every entity keeps far below it.
pub const MAX_COORDINATE: i64 = 1_000_000_000_000;

/// Largest width or height an entity rectangle may have, in subunits.
pub const MAX_DIMENSION: i64 = 1_000_000;

} // verus!
