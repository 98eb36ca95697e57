//! The ball: its movement, its leaving the playfield, and the direction it
//! is served in.

use vstd::prelude::*;
use rand::Rng;
use crate::geometry::{Pair, Point2, Vector2};

verus! {

/// A side of the playfield.
#[derive(Clone, Copy, Debug, PartialEq, Eq, Structural)]
pub enum Side {
    Left,
    Right,
}

/// One explicit Euler step: position plus velocity times elapsed time, on
/// each axis.
pub open spec fn integrated(position: Pair, velocity: Pair, dt: int) -> Pair {
    Pair { x: position.x + velocity.x * dt, y: position.y + velocity.y * dt }
}

/// Moves `pos` by `vel` for `dt` microseconds. Nothing is clamped and
/// nothing is rounded.
pub fn integrate(pos: &mut Point2, vel: &Vector2, dt: u32)
    requires
        integrated(old(pos)@, vel@, dt as int).fits(),
    ensures
        final(pos)@ == integrated(old(pos)@, vel@, dt as int),
{
    pos.x = displaced(pos.x, vel.x, dt);
    pos.y = displaced(pos.y, vel.y, dt);
}

/// One coordinate of an Euler step, in 128 bits, where neither the product
/// nor the sum can overflow.
fn travelled(position: i64, speed: i64, dt: u32) -> (place: i128)
    ensures
        place == position + speed * dt,
{
    assert(-0x8000_0000_0000_0000_0000_0000 <= speed * dt <= 0x8000_0000_0000_0000_0000_0000)
        by (nonlinear_arith)
        requires
            -0x8000_0000_0000_0000 <= speed <= 0x8000_0000_0000_0000,
            0 <= dt <= 0x1_0000_0000,
    ;
    (position as i128) + (speed as i128) * (dt as i128)
}

/// One coordinate of an Euler step, where an `i64` can hold it.
pub fn checked_displaced(position: i64, speed: i64, dt: u32) -> (moved: Option<i64>)
    ensures
        moved matches Some(place) ==> place == position + speed * dt,
        moved is Some <==> i64::MIN <= position + speed * dt <= i64::MAX,
{
    let place = travelled(position, speed, dt);
    if place < i64::MIN as i128 || place > i64::MAX as i128 {
        None
    } else {
        Some(place as i64)
    }
}

/// One coordinate of an Euler step that an `i64` can hold.
fn displaced(position: i64, speed: i64, dt: u32) -> (moved: i64)
    requires
        i64::MIN <= position + speed * dt <= i64::MAX,
    ensures
        moved == position + speed * dt,
{
    travelled(position, speed, dt) as i64
}

/// The side on which a ball at `x` has left a playfield `screen_w` wide, if
/// it has. The left edge is looked at first.
pub open spec fn exit_of(x: int, screen_w: int) -> Option<Side> {
    if x < 0 {
        Some(Side::Left)
    } else if x > screen_w {
        Some(Side::Right)
    } else {
        None
    }
}

/// The side on which the ball has left the playfield, if it has.
pub fn exit_side(x: i64, screen_w: i64) -> (side: Option<Side>)
    ensures
        side == exit_of(x as int, screen_w as int),
{
    if x < 0 {
        Some(Side::Left)
    } else if x > screen_w {
        Some(Side::Right)
    } else {
        None
    }
}

/// `magnitude` on heads, its negative on tails.
pub open spec fn signed(magnitude: int, heads: bool) -> int {
    if heads {
        magnitude
    } else {
        -magnitude
    }
}

/// The velocity with speed `x` and `y` along the axes, each signed by its
/// own coin.
pub open spec fn reflection(x: int, y: int, heads_x: bool, heads_y: bool) -> Pair {
    Pair { x: signed(x, heads_x), y: signed(y, heads_y) }
}

/// Sets `vec` to the speeds `x` and `y`, each signed by its coin.
pub fn reflect_vec(vec: &mut Vector2, x: i64, y: i64, heads_x: bool, heads_y: bool)
    requires
        x > i64::MIN,
        y > i64::MIN,
    ensures
        final(vec)@ == reflection(x as int, y as int, heads_x, heads_y),
{
    vec.x = if heads_x { x } else { -x };
    vec.y = if heads_y { y } else { -y };
}

/// A fair coin from `rand`: `Rng::gen_ratio(1, 2)` on `thread_rng()`, which
/// is true with a chance of one in two. Nothing is claimed of the outcome.
#[verifier::external_body]
fn coin_flip() -> (heads: bool) {
    rand::thread_rng().gen_ratio(1, 2)
}

/// Sets `vec` to the speeds `x` and `y`, each signed by a fair coin of its
/// own, the one for `x` thrown first. Whatever the coins show, each speed
/// keeps its magnitude.
pub fn randomize_vec(vec: &mut Vector2, x: i64, y: i64)
    requires
        x > i64::MIN,
        y > i64::MIN,
    ensures
        final(vec).x == x || final(vec).x == -x,
        final(vec).y == y || final(vec).y == -y,
        exists|heads_x: bool, heads_y: bool|
            final(vec)@ == reflection(x as int, y as int, heads_x, heads_y),
{
    let heads_x = coin_flip();
    let heads_y = coin_flip();
    reflect_vec(vec, x, y, heads_x, heads_y);
}

/// A reflection keeps the magnitude of each speed.
pub proof fn lemma_reflection_magnitude(x: int, y: int, heads_x: bool, heads_y: bool)
    ensures
        reflection(x, y, heads_x, heads_y).x == x || reflection(x, y, heads_x, heads_y).x == -x,
        reflection(x, y, heads_x, heads_y).y == y || reflection(x, y, heads_x, heads_y).y == -y,
        reflection(x, y, heads_x, heads_y).x * reflection(x, y, heads_x, heads_y).x == x * x,
        reflection(x, y, heads_x, heads_y).y * reflection(x, y, heads_x, heads_y).y == y * y,
{
    assert((-x) * (-x) == x * x) by (nonlinear_arith);
    assert((-y) * (-y) == y * y) by (nonlinear_arith);
}

} // verus!
