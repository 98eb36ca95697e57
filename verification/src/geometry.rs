//! Positions and velocities on the playfield, and their mathematical model.

use vstd::prelude::*;
use crate::constants::{
    BALL_SIZE, BALL_SIZE_HALF, RACKET_HEIGHT, RACKET_HEIGHT_HALF, RACKET_WIDTH, RACKET_WIDTH_HALF,
};

verus! {

/// A pair of unbounded integers: what a position or a velocity stands for.
pub struct Pair {
    pub x: int,
    pub y: int,
}

/// A position, in length units, with `y` growing downwards.
#[derive(Clone, Copy, Debug, PartialEq, Eq, Structural)]
pub struct Point2 {
    pub x: i64,
    pub y: i64,
}

/// A velocity, in pixels per second.
#[derive(Clone, Copy, Debug, PartialEq, Eq, Structural)]
pub struct Vector2 {
    pub x: i64,
    pub y: i64,
}

impl View for Point2 {
    type V = Pair;

    open spec fn view(&self) -> Pair {
        Pair { x: self.x as int, y: self.y as int }
    }
}

impl View for Vector2 {
    type V = Pair;

    open spec fn view(&self) -> Pair {
        Pair { x: self.x as int, y: self.y as int }
    }
}

impl Point2 {
    pub fn new(x: i64, y: i64) -> (p: Point2)
        ensures
            p.x == x,
            p.y == y,
    {
        Point2 { x, y }
    }
}

impl Vector2 {
    pub fn new(x: i64, y: i64) -> (v: Vector2)
        ensures
            v.x == x,
            v.y == y,
    {
        Vector2 { x, y }
    }
}

/// A rectangle: its upper left corner and its size.
#[derive(Clone, Copy, Debug, PartialEq, Eq, Structural)]
pub struct Rect {
    pub x: i64,
    pub y: i64,
    pub w: i64,
    pub h: i64,
}

/// The rectangle of a racket, about its centre.
pub fn racket_rect() -> (rect: Rect)
    ensures
        rect.x == -RACKET_WIDTH_HALF,
        rect.y == -RACKET_HEIGHT_HALF,
        rect.w == RACKET_WIDTH,
        rect.h == RACKET_HEIGHT,
{
    Rect { x: -RACKET_WIDTH_HALF, y: -RACKET_HEIGHT_HALF, w: RACKET_WIDTH, h: RACKET_HEIGHT }
}

/// The rectangle of the ball, about its centre.
pub fn ball_rect() -> (rect: Rect)
    ensures
        rect.x == -BALL_SIZE_HALF,
        rect.y == -BALL_SIZE_HALF,
        rect.w == BALL_SIZE,
        rect.h == BALL_SIZE,
{
    Rect { x: -BALL_SIZE_HALF, y: -BALL_SIZE_HALF, w: BALL_SIZE, h: BALL_SIZE }
}

impl Pair {
    /// Both coordinates can be held in an `i64`.
    pub open spec fn fits(self) -> bool {
        &&& i64::MIN <= self.x <= i64::MAX
        &&& i64::MIN <= self.y <= i64::MAX
    }
}

/// Half of `extent`, rounded towards zero.
pub open spec fn half_of(extent: int) -> int {
    if extent >= 0 {
        extent / 2
    } else {
        -((-extent) / 2)
    }
}

/// The centre of a playfield `screen_w` wide and `screen_h` high.
pub open spec fn centre_of(screen_w: int, screen_h: int) -> Pair {
    Pair { x: half_of(screen_w), y: half_of(screen_h) }
}

/// The centre of the playfield.
pub fn centre(screen_w: i64, screen_h: i64) -> (c: Point2)
    ensures
        c@ == centre_of(screen_w as int, screen_h as int),
{
    Point2 { x: screen_w / 2, y: screen_h / 2 }
}

/// The centre of a playfield that has a size lies on it, and twice the
/// centre is the size or one unit less.
pub proof fn lemma_centre_on_field(screen_w: int, screen_h: int)
    requires
        screen_w >= 0,
        screen_h >= 0,
    ensures
        0 <= centre_of(screen_w, screen_h).x <= screen_w,
        0 <= centre_of(screen_w, screen_h).y <= screen_h,
        screen_w - 1 <= 2 * centre_of(screen_w, screen_h).x <= screen_w,
        screen_h - 1 <= 2 * centre_of(screen_w, screen_h).y <= screen_h,
{
}

} // verus!
