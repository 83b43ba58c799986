//! Simulation core of a two-paddle ball game.
//!
//! All geometry is carried in integer fixed-point coordinates: lengths are
//! thousandths of a screen unit ("milli-units"), velocities are milli-units
//! per millisecond (numerically equal to units per second), and a tick's
//! duration is a whole number of milliseconds.

use vstd::prelude::*;

pub mod ball;
pub mod game;
pub mod num;
pub mod paddle;
pub mod score;
pub mod timer;

verus! {

/// Width of the play field, in milli-units (802 units).
pub const WINDOW_WIDTH: i64 = 802_000;
/// Height of the play field, in milli-units (455 units).
pub const WINDOW_HEIGHT: i64 = 455_000;
/// Half the field width.
pub const HALF_WINDOW_WIDTH: i64 = 401_000;
/// Half the field height.
pub const HALF_WINDOW_HEIGHT: i64 = 227_500;
/// Height of the score bar at the top of the field, in milli-units (47 units).
pub const UI_HEIGHT: i64 = 47_000;

/// Longest tick accepted by the simulation, in milliseconds; keeps every
/// position and velocity product comfortably inside `i64`.
pub const MAX_TICK_MS: i64 = 1_000_000_000;

} // verus!
