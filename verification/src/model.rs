//! The game as mathematics: a state of unbounded integers, and what one
//! frame does to it.

use vstd::prelude::*;
use crate::ball::{exit_of, integrated, reflection, Side};
use crate::constants::{BALL_SPEED, RACKET_WIDTH_HALF};
use crate::geometry::{centre_of, half_of, Pair};
use crate::racket::racket_steered;

verus! {

/// Which of the four keys are held down.
#[derive(Clone, Copy, Debug, PartialEq, Eq, Structural)]
pub struct Input {
    pub player_1_up: bool,
    pub player_1_down: bool,
    pub player_2_up: bool,
    pub player_2_down: bool,
}

/// What one frame brings from outside: the keys, the elapsed time in
/// microseconds, the size of the playfield, and the two coins that sign the
/// ball's velocity if it is served again in this frame.
pub struct Frame {
    pub input: Input,
    pub dt: int,
    pub screen_w: int,
    pub screen_h: int,
    pub heads_x: bool,
    pub heads_y: bool,
}

/// The state of a game.
pub struct Game {
    pub player_1: Pair,
    pub player_2: Pair,
    pub ball: Pair,
    pub velocity: Pair,
    pub score_1: int,
    pub score_2: int,
}

impl Game {
    /// The state a session starts in: each racket at mid-height, inset from
    /// its edge by half its width; the ball in the centre, served as the
    /// coins say; no points.
    pub open spec fn opening(screen_w: int, screen_h: int, heads_x: bool, heads_y: bool) -> Game {
        Game {
            player_1: Pair { x: RACKET_WIDTH_HALF as int, y: half_of(screen_h) },
            player_2: Pair { x: screen_w - RACKET_WIDTH_HALF, y: half_of(screen_h) },
            ball: centre_of(screen_w, screen_h),
            velocity: reflection(BALL_SPEED as int, BALL_SPEED as int, heads_x, heads_y),
            score_1: 0,
            score_2: 0,
        }
    }

    /// No score is negative, and the ball has its fixed speed along each
    /// axis.
    pub open spec fn well_formed(self) -> bool {
        &&& self.score_1 >= 0
        &&& self.score_2 >= 0
        &&& (self.velocity.x == BALL_SPEED || self.velocity.x == -BALL_SPEED)
        &&& (self.velocity.y == BALL_SPEED || self.velocity.y == -BALL_SPEED)
    }

    /// Both rackets steered for one frame.
    pub open spec fn steered(self, input: Input, dt: int, screen_h: int) -> Game {
        Game {
            player_1: Pair {
                x: self.player_1.x,
                y: racket_steered(
                    self.player_1.y,
                    input.player_1_up,
                    input.player_1_down,
                    dt,
                    screen_h,
                ),
            },
            player_2: Pair {
                x: self.player_2.x,
                y: racket_steered(
                    self.player_2.y,
                    input.player_2_up,
                    input.player_2_down,
                    dt,
                    screen_h,
                ),
            },
            ..self
        }
    }

    /// The ball moved by its velocity for `dt`.
    pub open spec fn ball_moved(self, dt: int) -> Game {
        Game { ball: integrated(self.ball, self.velocity, dt), ..self }
    }

    /// The point that a ball leaving on `side` gives: one for the player on
    /// the other side.
    pub open spec fn awarded(self, side: Side) -> Game {
        match side {
            Side::Left => Game { score_2: self.score_2 + 1, ..self },
            Side::Right => Game { score_1: self.score_1 + 1, ..self },
        }
    }

    /// The ball looked at after it moved. While it is on the playfield, or
    /// level with an edge, nothing changes. Once it is past the left edge,
    /// or else past the right one, it goes back to the centre, is served as
    /// the coins say, and the player on the other side gets one point.
    pub open spec fn resolved(
        self,
        screen_w: int,
        screen_h: int,
        heads_x: bool,
        heads_y: bool,
    ) -> Game {
        match exit_of(self.ball.x, screen_w) {
            None => self,
            Some(side) => Game {
                ball: centre_of(screen_w, screen_h),
                velocity: reflection(BALL_SPEED as int, BALL_SPEED as int, heads_x, heads_y),
                ..self
            }.awarded(side),
        }
    }

    /// One frame: the rackets are steered, the ball moves, and the ball is
    /// looked at.
    pub open spec fn stepped(self, frame: Frame) -> Game {
        self.steered(frame.input, frame.dt, frame.screen_h).ball_moved(frame.dt).resolved(
            frame.screen_w,
            frame.screen_h,
            frame.heads_x,
            frame.heads_y,
        )
    }

    /// Frame after frame, the first of `frames` first.
    pub open spec fn played(self, frames: Seq<Frame>) -> Game
        decreases frames.len(),
    {
        if frames.len() == 0 {
            self
        } else {
            self.played(frames.drop_last()).stepped(frames.last())
        }
    }
}

} // verus!
