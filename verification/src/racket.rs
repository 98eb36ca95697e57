//! Clamping, and the movement of a racket.

use vstd::prelude::*;
use crate::constants::{PLAYER_SPEED, RACKET_HEIGHT, RACKET_HEIGHT_HALF};
use crate::geometry::Point2;

verus! {

/// The way a racket is steered. `y` grows downwards, so `Up` lowers it.
#[derive(Clone, Copy, Debug, PartialEq, Eq, Structural)]
pub enum Direction {
    Up,
    Down,
}

/// `value` bounded into `[low, high]`: `low` below it, `high` above it, else
/// `value` itself. The lower bound is tested first.
pub open spec fn clamped(value: int, low: int, high: int) -> int {
    if value < low {
        low
    } else if value > high {
        high
    } else {
        value
    }
}

/// Bounds `value` into `[low, high]` in place.
pub fn clamp(value: &mut i64, low: i64, high: i64)
    ensures
        *final(value) == clamped(*old(value) as int, low as int, high as int),
{
    if *value < low {
        *value = low;
    } else if *value > high {
        *value = high;
    }
}

/// Clamping an already clamped value changes nothing, where the bounds are
/// in order.
pub proof fn lemma_clamp_idempotent(value: int, low: int, high: int)
    requires
        low <= high,
    ensures
        clamped(clamped(value, low, high), low, high) == clamped(value, low, high),
{
}

/// With the bounds in order, a clamped value lies between them, and a value
/// between them is left as it is.
pub proof fn lemma_clamp_within(value: int, low: int, high: int)
    requires
        low <= high,
    ensures
        low <= clamped(value, low, high) <= high,
        low <= value <= high ==> clamped(value, low, high) == value,
{
}

/// Where a racket at height `y` would stand after `dt` microseconds if the
/// playfield had no edges: `PLAYER_SPEED * dt` further in `direction` while
/// the key is pressed, else where it was.
pub open spec fn racket_target(y: int, pressed: bool, direction: Direction, dt: int) -> int {
    if !pressed {
        y
    } else {
        match direction {
            Direction::Up => y - PLAYER_SPEED * dt,
            Direction::Down => y + PLAYER_SPEED * dt,
        }
    }
}

/// The height of a racket after one key was looked at: its target, clamped
/// so that the whole racket stays on a playfield `screen_h` high.
pub open spec fn racket_moved(
    y: int,
    pressed: bool,
    direction: Direction,
    dt: int,
    screen_h: int,
) -> int {
    clamped(
        racket_target(y, pressed, direction, dt),
        RACKET_HEIGHT_HALF as int,
        screen_h - RACKET_HEIGHT_HALF,
    )
}

/// The height of a racket after both of its keys were looked at, `Up` first.
pub open spec fn racket_steered(y: int, up: bool, down: bool, dt: int, screen_h: int) -> int {
    racket_moved(
        racket_moved(y, up, Direction::Up, dt, screen_h),
        down,
        Direction::Down,
        dt,
        screen_h,
    )
}

/// Moves a racket for one key: `PLAYER_SPEED * dt` in `direction` if the key
/// is pressed, then clamps its centre to the playfield. `x` never changes.
pub fn move_racket(pos: &mut Point2, pressed: bool, direction: Direction, dt: u32, screen_h: i64)
    requires
        screen_h - RACKET_HEIGHT_HALF >= i64::MIN,
    ensures
        final(pos).x == old(pos).x,
        final(pos).y == racket_moved(
            old(pos).y as int,
            pressed,
            direction,
            dt as int,
            screen_h as int,
        ),
        screen_h >= RACKET_HEIGHT ==> RACKET_HEIGHT_HALF <= final(pos).y <= screen_h
            - RACKET_HEIGHT_HALF,
{
    let mut y: i64 = pos.y;
    if pressed {
        let travel: i64 = PLAYER_SPEED * (dt as i64);
        // Past the end of `i64` the target is past either bound as well, so
        // the end of the range stands for it.
        y = match direction {
            Direction::Up => match y.checked_sub(travel) {
                Some(target) => target,
                None => i64::MIN,
            },
            Direction::Down => match y.checked_add(travel) {
                Some(target) => target,
                None => i64::MAX,
            },
        };
    }
    clamp(&mut y, RACKET_HEIGHT_HALF, screen_h - RACKET_HEIGHT_HALF);
    pos.y = y;
}

/// Steers a racket for one frame: the `Up` key, then the `Down` key, each
/// followed by the clamp. In mid-field two pressed keys cancel; at an edge
/// the key looked at last wins.
pub fn steer_racket(pos: &mut Point2, up: bool, down: bool, dt: u32, screen_h: i64)
    requires
        screen_h - RACKET_HEIGHT_HALF >= i64::MIN,
    ensures
        final(pos).x == old(pos).x,
        final(pos).y == racket_steered(old(pos).y as int, up, down, dt as int, screen_h as int),
        screen_h >= RACKET_HEIGHT ==> RACKET_HEIGHT_HALF <= final(pos).y <= screen_h
            - RACKET_HEIGHT_HALF,
{
    move_racket(pos, up, Direction::Up, dt, screen_h);
    move_racket(pos, down, Direction::Down, dt, screen_h);
}

/// On a playfield at least as high as a racket, a steered racket lies wholly
/// on it, whatever the keys, the elapsed time and the place it came from.
pub proof fn lemma_racket_stays_on_field(y: int, up: bool, down: bool, dt: int, screen_h: int)
    requires
        screen_h >= RACKET_HEIGHT,
    ensures
        RACKET_HEIGHT_HALF <= racket_steered(y, up, down, dt, screen_h) <= screen_h
            - RACKET_HEIGHT_HALF,
        forall|pressed: bool, direction: Direction|
            RACKET_HEIGHT_HALF <= #[trigger] racket_moved(y, pressed, direction, dt, screen_h)
                <= screen_h - RACKET_HEIGHT_HALF,
{
}

/// In mid-field, with room on both sides, two pressed keys cancel.
pub proof fn lemma_opposite_keys_cancel(y: int, dt: int, screen_h: int)
    requires
        dt >= 0,
        RACKET_HEIGHT_HALF <= y - PLAYER_SPEED * dt,
        y <= screen_h - RACKET_HEIGHT_HALF,
    ensures
        racket_steered(y, true, true, dt, screen_h) == y,
{
}

} // verus!
