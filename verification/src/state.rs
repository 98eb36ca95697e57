//! The game state that runs: the model held in machine integers.

use vstd::prelude::*;
use crate::ball::{
    checked_displaced, exit_of, exit_side, integrate, integrated, randomize_vec, reflect_vec,
    reflection, Side,
};
use crate::constants::{BALL_SPEED, RACKET_HEIGHT, RACKET_HEIGHT_HALF, RACKET_WIDTH_HALF};
use crate::geometry::{centre, Point2, Vector2};
use crate::model::{Frame, Game, Input};
use crate::racket::steer_racket;

verus! {

/// Both rackets, the ball and the two scores.
#[derive(Clone, Copy, Debug, PartialEq, Eq, Structural)]
pub struct MainState {
    pub player_1_pos: Point2,
    pub player_2_pos: Point2,
    pub ball_pos: Point2,
    pub ball_vel: Vector2,
    pub player_1_score: i32,
    pub player_2_score: i32,
}

impl View for MainState {
    type V = Game;

    open spec fn view(&self) -> Game {
        Game {
            player_1: self.player_1_pos@,
            player_2: self.player_2_pos@,
            ball: self.ball_pos@,
            velocity: self.ball_vel@,
            score_1: self.player_1_score as int,
            score_2: self.player_2_score as int,
        }
    }
}

/// The frame that `step` plays.
pub open spec fn frame_of(
    input: Input,
    dt: u32,
    screen_w: i64,
    screen_h: i64,
    heads_x: bool,
    heads_y: bool,
) -> Frame {
    Frame {
        input,
        dt: dt as int,
        screen_w: screen_w as int,
        screen_h: screen_h as int,
        heads_x,
        heads_y,
    }
}

impl MainState {
    /// No score is negative, and the ball has its fixed speed along each
    /// axis.
    pub open spec fn wf(&self) -> bool {
        self@.well_formed()
    }

    /// The machine can hold the state after a frame of `dt` microseconds on
    /// this playfield: the lower edge of the racket's range, the place the
    /// ball moves to, and the score that grows if the ball is out there.
    pub open spec fn can_step(&self, dt: u32, screen_w: i64, screen_h: i64) -> bool {
        let ball = integrated(self.ball_pos@, self.ball_vel@, dt as int);
        &&& screen_h - RACKET_HEIGHT_HALF >= i64::MIN
        &&& ball.fits()
        &&& exit_of(ball.x, screen_w as int) == Some(Side::Left) ==> self.player_2_score
            < i32::MAX
        &&& exit_of(ball.x, screen_w as int) == Some(Side::Right) ==> self.player_1_score
            < i32::MAX
    }

    /// The state a session starts in, with the ball served as the coins say.
    pub fn with_serve(screen_w: i64, screen_h: i64, heads_x: bool, heads_y: bool) -> (state:
        MainState)
        requires
            screen_w - RACKET_WIDTH_HALF >= i64::MIN,
        ensures
            state@ == Game::opening(screen_w as int, screen_h as int, heads_x, heads_y),
            state.wf(),
    {
        let middle = centre(screen_w, screen_h);
        let mut ball_vel = Vector2 { x: 0, y: 0 };
        reflect_vec(&mut ball_vel, BALL_SPEED, BALL_SPEED, heads_x, heads_y);
        MainState {
            player_1_pos: Point2 { x: RACKET_WIDTH_HALF, y: middle.y },
            player_2_pos: Point2 { x: screen_w - RACKET_WIDTH_HALF, y: middle.y },
            ball_pos: middle,
            ball_vel,
            player_1_score: 0,
            player_2_score: 0,
        }
    }

    /// The state a session starts in, with the ball served at random.
    pub fn new(screen_w: i64, screen_h: i64) -> (state: MainState)
        requires
            screen_w - RACKET_WIDTH_HALF >= i64::MIN,
        ensures
            exists|heads_x: bool, heads_y: bool|
                state@ == Game::opening(screen_w as int, screen_h as int, heads_x, heads_y),
            state.wf(),
    {
        let middle = centre(screen_w, screen_h);
        let mut ball_vel = Vector2 { x: 0, y: 0 };
        randomize_vec(&mut ball_vel, BALL_SPEED, BALL_SPEED);
        let state = MainState {
            player_1_pos: Point2 { x: RACKET_WIDTH_HALF, y: middle.y },
            player_2_pos: Point2 { x: screen_w - RACKET_WIDTH_HALF, y: middle.y },
            ball_pos: middle,
            ball_vel,
            player_1_score: 0,
            player_2_score: 0,
        };
        proof {
            let (heads_x, heads_y) = choose|heads_x: bool, heads_y: bool|
                ball_vel@ == reflection(BALL_SPEED as int, BALL_SPEED as int, heads_x, heads_y);
            assert(state@ == Game::opening(screen_w as int, screen_h as int, heads_x, heads_y));
        }
        state
    }

    /// Steers both rackets and moves the ball: all of a frame but the look
    /// at the ball.
    pub fn advance(&mut self, input: &Input, dt: u32, screen_h: i64)
        requires
            screen_h - RACKET_HEIGHT_HALF >= i64::MIN,
            integrated(old(self).ball_pos@, old(self).ball_vel@, dt as int).fits(),
        ensures
            final(self)@ == old(self)@.steered(*input, dt as int, screen_h as int).ball_moved(
                dt as int,
            ),
    {
        steer_racket(
            &mut self.player_1_pos,
            input.player_1_up,
            input.player_1_down,
            dt,
            screen_h,
        );
        steer_racket(
            &mut self.player_2_pos,
            input.player_2_up,
            input.player_2_down,
            dt,
            screen_h,
        );
        integrate(&mut self.ball_pos, &self.ball_vel, dt);
    }

    /// Gives the point for a ball that left on `side`.
    pub fn award(&mut self, side: Side)
        requires
            side == Side::Left ==> old(self).player_2_score < i32::MAX,
            side == Side::Right ==> old(self).player_1_score < i32::MAX,
        ensures
            final(self)@ == old(self)@.awarded(side),
    {
        match side {
            Side::Left => {
                self.player_2_score = self.player_2_score + 1;
            },
            Side::Right => {
                self.player_1_score = self.player_1_score + 1;
            },
        }
    }

    /// Looks at the ball: if it is past an edge, it goes back to the centre,
    /// is served as the coins say, and the other player gets a point.
    pub fn resolve_boundary(&mut self, screen_w: i64, screen_h: i64, heads_x: bool, heads_y: bool)
        requires
            exit_of(old(self).ball_pos.x as int, screen_w as int) == Some(Side::Left) ==> old(
                self,
            ).player_2_score < i32::MAX,
            exit_of(old(self).ball_pos.x as int, screen_w as int) == Some(Side::Right) ==> old(
                self,
            ).player_1_score < i32::MAX,
        ensures
            final(self)@ == old(self)@.resolved(
                screen_w as int,
                screen_h as int,
                heads_x,
                heads_y,
            ),
    {
        match exit_side(self.ball_pos.x, screen_w) {
            None => {},
            Some(side) => {
                self.ball_pos = centre(screen_w, screen_h);
                reflect_vec(&mut self.ball_vel, BALL_SPEED, BALL_SPEED, heads_x, heads_y);
                self.award(side);
            },
        }
    }

    /// Plays one frame, with the coins given: the rackets are steered, the
    /// ball moves, and the ball is looked at. The coins count only if the
    /// ball is out.
    pub fn step(
        &mut self,
        input: &Input,
        dt: u32,
        screen_w: i64,
        screen_h: i64,
        heads_x: bool,
        heads_y: bool,
    )
        requires
            old(self).can_step(dt, screen_w, screen_h),
        ensures
            final(self)@ == old(self)@.stepped(
                frame_of(*input, dt, screen_w, screen_h, heads_x, heads_y),
            ),
            old(self).wf() ==> final(self).wf(),
            screen_h >= RACKET_HEIGHT ==> final(self).rackets_on_field(screen_h),
    {
        self.advance(input, dt, screen_h);
        self.resolve_boundary(screen_w, screen_h, heads_x, heads_y);
    }

    /// Plays one frame. If the ball is out, it is served at random.
    pub fn update(&mut self, input: &Input, dt: u32, screen_w: i64, screen_h: i64)
        requires
            old(self).can_step(dt, screen_w, screen_h),
        ensures
            exists|heads_x: bool, heads_y: bool|
                final(self)@ == old(self)@.stepped(
                    frame_of(*input, dt, screen_w, screen_h, heads_x, heads_y),
                ),
            old(self).wf() ==> final(self).wf(),
            screen_h >= RACKET_HEIGHT ==> final(self).rackets_on_field(screen_h),
    {
        self.advance(input, dt, screen_h);
        let ghost moved = self@;
        match exit_side(self.ball_pos.x, screen_w) {
            None => {
                proof {
                    assert(self@ == old(self)@.stepped(
                        frame_of(*input, dt, screen_w, screen_h, true, true),
                    ));
                }
            },
            Some(side) => {
                self.ball_pos = centre(screen_w, screen_h);
                randomize_vec(&mut self.ball_vel, BALL_SPEED, BALL_SPEED);
                self.award(side);
                proof {
                    let (heads_x, heads_y) = choose|heads_x: bool, heads_y: bool|
                        self.ball_vel@ == reflection(
                            BALL_SPEED as int,
                            BALL_SPEED as int,
                            heads_x,
                            heads_y,
                        );
                    assert(self@ == moved.resolved(
                        screen_w as int,
                        screen_h as int,
                        heads_x,
                        heads_y,
                    ));
                    assert(self@ == old(self)@.stepped(
                        frame_of(*input, dt, screen_w, screen_h, heads_x, heads_y),
                    ));
                }
            },
        }
    }

    /// Whether the machine can hold the state after such a frame.
    pub fn fits_step(&self, dt: u32, screen_w: i64, screen_h: i64) -> (fits: bool)
        ensures
            fits == self.can_step(dt, screen_w, screen_h),
    {
        if screen_h < i64::MIN + RACKET_HEIGHT_HALF {
            return false;
        }
        let x = checked_displaced(self.ball_pos.x, self.ball_vel.x, dt);
        let y = checked_displaced(self.ball_pos.y, self.ball_vel.y, dt);
        match (x, y) {
            (Some(place), Some(_)) => match exit_side(place, screen_w) {
                None => true,
                Some(Side::Left) => self.player_2_score < i32::MAX,
                Some(Side::Right) => self.player_1_score < i32::MAX,
            },
            _ => false,
        }
    }

    /// Plays one frame if the machine can hold the state after it, and says
    /// whether it did. A frame that is not played leaves the state as it
    /// was.
    pub fn try_update(&mut self, input: &Input, dt: u32, screen_w: i64, screen_h: i64) -> (played:
        bool)
        ensures
            played == old(self).can_step(dt, screen_w, screen_h),
            !played ==> *final(self) == *old(self),
            played ==> exists|heads_x: bool, heads_y: bool|
                final(self)@ == old(self)@.stepped(
                    frame_of(*input, dt, screen_w, screen_h, heads_x, heads_y),
                ),
            old(self).wf() ==> final(self).wf(),
            played && screen_h >= RACKET_HEIGHT ==> final(self).rackets_on_field(screen_h),
    {
        if self.fits_step(dt, screen_w, screen_h) {
            self.update(input, dt, screen_w, screen_h);
            true
        } else {
            false
        }
    }

    /// Both rackets lie wholly between the upper and the lower edge of a
    /// playfield `screen_h` high.
    pub open spec fn rackets_on_field(&self, screen_h: i64) -> bool {
        &&& RACKET_HEIGHT_HALF <= self.player_1_pos.y <= screen_h - RACKET_HEIGHT_HALF
        &&& RACKET_HEIGHT_HALF <= self.player_2_pos.y <= screen_h - RACKET_HEIGHT_HALF
    }
}

} // verus!
