//! The fixed sizes and speeds of the game.

use vstd::prelude::*;

verus! {

/// Length units in one pixel.
pub const UNITS_PER_PIXEL: i64 = 1_000_000;

/// Time units (microseconds) in one second.
pub const TICKS_PER_SECOND: u32 = 1_000_000;

/// Racket speed in pixels per second, which is length units per microsecond.
pub const PLAYER_SPEED: i64 = 600;

/// Ball speed along each axis, in pixels per second.
pub const BALL_SPEED: i64 = 100;

/// Height of a racket.
pub const RACKET_HEIGHT: i64 = 100_000_000;

/// Width of a racket.
pub const RACKET_WIDTH: i64 = 20_000_000;

/// From the centre of a racket to its upper or lower end.
pub const RACKET_HEIGHT_HALF: i64 = 50_000_000;

/// From the centre of a racket to its left or right side.
pub const RACKET_WIDTH_HALF: i64 = 10_000_000;

/// Side of the square ball.
pub const BALL_SIZE: i64 = 30_000_000;

/// From the centre of the ball to any of its sides.
pub const BALL_SIZE_HALF: i64 = 15_000_000;

/// Where the scoreboard is drawn, from the left edge.
pub const SCORE_X: i64 = 380_000_000;

/// Where the scoreboard is drawn, from the upper edge.
pub const SCORE_Y: i64 = 40_000_000;

/// A second has as many microseconds as a pixel has length units, so that
/// a speed in pixels per second is a speed in length units per microsecond.
/// The sizes are whole pixels, and each half is half of its whole.
pub proof fn lemma_units()
    ensures
        TICKS_PER_SECOND == UNITS_PER_PIXEL,
        PLAYER_SPEED * TICKS_PER_SECOND == 600 * UNITS_PER_PIXEL,
        BALL_SPEED * TICKS_PER_SECOND == 100 * UNITS_PER_PIXEL,
        SCORE_X == 380 * UNITS_PER_PIXEL,
        SCORE_Y == 40 * UNITS_PER_PIXEL,
        RACKET_HEIGHT == 100 * UNITS_PER_PIXEL,
        RACKET_WIDTH == 20 * UNITS_PER_PIXEL,
        BALL_SIZE == 30 * UNITS_PER_PIXEL,
        RACKET_HEIGHT == 2 * RACKET_HEIGHT_HALF,
        RACKET_WIDTH == 2 * RACKET_WIDTH_HALF,
        BALL_SIZE == 2 * BALL_SIZE_HALF,
{
}

} // verus!
