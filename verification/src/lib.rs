//! Core logic of a two-paddle pong game: collision detection, paddle
//! movement, ball physics and the menu / game / game-over state machine.
//!
//! All geometry lives on an integer grid of milli-pixels (one thousandth of
//! a pixel), time is measured in milliseconds, and velocities in milli-pixels
//! per millisecond (numerically equal to pixels per second). Randomness for
//! the rebound angle enters as an integer number of thousandths of the unit
//! interval, drawn from the process random source behind a single trusted
//! wrapper, so every decision the game makes is a verified function of plain
//! integer values.

pub mod ball;
pub mod geometry;
pub mod paddle;
mod rng;
pub mod session;

use vstd::prelude::*;

verus! {

/// Screen width in milli-pixels (1280 pixels).
pub const SCREEN_WIDTH: i64 = 1_280_000;

/// Screen height in milli-pixels (720 pixels).
pub const SCREEN_HEIGHT: i64 = 720_000;

/// Paddle height in milli-pixels (128 pixels).
pub const PADDLE_HEIGHT: i64 = 128_000;

/// Paddle width in milli-pixels (32 pixels).
pub const PADDLE_WIDTH: i64 = 32_000;

/// Horizontal distance of each paddle from its screen edge, in milli-pixels.
pub const PADDLE_DIST_FROM_EDGE: i64 = 64_000;

/// Paddle speed in milli-pixels per millisecond (300 pixels per second).
pub const PADDLE_SPEED: i64 = 300;

/// Ball side length in milli-pixels (32 pixels).
pub const BALL_SIZE: i64 = 32_000;

/// Half the ball side length, in milli-pixels.
pub const BALL_HALF_SIZE: i64 = 16_000;

/// Half the paddle height, in milli-pixels.
pub const PADDLE_HALF_HEIGHT: i64 = 64_000;

/// Coordinates handed to the update functions stay within this magnitude,
/// so every sum and product of the per-frame arithmetic fits in an `i64`.
pub const POS_LIMIT: i64 = 1_000_000_000_000_000;

/// Velocities stay within this magnitude (one million pixels per second).
pub const VEL_LIMIT: i64 = 1_000_000_000;

/// Upper bound on the elapsed time of a single frame, in milliseconds.
pub const DT_LIMIT: u64 = 100_000;

/// Resolution of the random rebound input: a draw is a whole number of
/// thousandths of the unit interval, in `0 .. RAND_UNIT`.
pub const RAND_UNIT: u64 = 1000;

/// A coordinate the update functions accept.
pub open spec fn coord_ok(c: int) -> bool {
    -POS_LIMIT <= c <= POS_LIMIT
}

/// A velocity component the update functions accept.
pub open spec fn vel_ok(v: int) -> bool {
    -VEL_LIMIT <= v <= VEL_LIMIT
}

} // verus!
