//! What holds of every game, however long it is played.

use vstd::prelude::*;
use crate::ball::{exit_of, integrated, Side};
use crate::constants::{RACKET_HEIGHT, RACKET_HEIGHT_HALF};
use crate::model::{Frame, Game};
use crate::racket::lemma_racket_stays_on_field;

verus! {

/// A frame gives at most one point, to one player, and takes none away: a
/// ball out on the left gives it to the second player, one out on the right
/// to the first, and a ball still in play gives none.
pub proof fn lemma_frame_scores(game: Game, frame: Frame)
    ensures
        ({
            let moved = integrated(game.ball, game.velocity, frame.dt);
            let after = game.stepped(frame);
            match exit_of(moved.x, frame.screen_w) {
                None => after.score_1 == game.score_1 && after.score_2 == game.score_2,
                Some(Side::Left) => after.score_1 == game.score_1 && after.score_2 == game.score_2
                    + 1,
                Some(Side::Right) => after.score_1 == game.score_1 + 1 && after.score_2
                    == game.score_2,
            }
        }),
{
}

/// Over any frames, in any number, no score decreases, a score that was not
/// negative does not become so, and the two scores together grow by at most
/// one point for each frame.
pub proof fn lemma_scores_never_decrease(game: Game, frames: Seq<Frame>)
    ensures
        game.played(frames).score_1 >= game.score_1,
        game.played(frames).score_2 >= game.score_2,
        game.score_1 >= 0 ==> game.played(frames).score_1 >= 0,
        game.score_2 >= 0 ==> game.played(frames).score_2 >= 0,
        game.played(frames).score_1 + game.played(frames).score_2 <= game.score_1 + game.score_2
            + frames.len(),
    decreases frames.len(),
{
    if frames.len() > 0 {
        lemma_scores_never_decrease(game, frames.drop_last());
        lemma_frame_scores(game.played(frames.drop_last()), frames.last());
    }
}

/// A frame keeps a game well formed: the ball's speed along each axis keeps
/// its magnitude, and no score becomes negative.
pub proof fn lemma_frame_well_formed(game: Game, frame: Frame)
    requires
        game.well_formed(),
    ensures
        game.stepped(frame).well_formed(),
{
}

/// A well-formed game stays so over any frames.
pub proof fn lemma_played_well_formed(game: Game, frames: Seq<Frame>)
    requires
        game.well_formed(),
    ensures
        game.played(frames).well_formed(),
    decreases frames.len(),
{
    if frames.len() > 0 {
        lemma_played_well_formed(game, frames.drop_last());
        lemma_frame_well_formed(game.played(frames.drop_last()), frames.last());
    }
}

/// After a frame on a playfield at least as high as a racket, both rackets
/// lie wholly on it, wherever they were, whatever the keys and the elapsed
/// time. No frame moves a racket sideways.
pub proof fn lemma_frame_rackets(game: Game, frame: Frame)
    ensures
        game.stepped(frame).player_1.x == game.player_1.x,
        game.stepped(frame).player_2.x == game.player_2.x,
        frame.screen_h >= RACKET_HEIGHT ==> {
            &&& RACKET_HEIGHT_HALF <= game.stepped(frame).player_1.y <= frame.screen_h
                - RACKET_HEIGHT_HALF
            &&& RACKET_HEIGHT_HALF <= game.stepped(frame).player_2.y <= frame.screen_h
                - RACKET_HEIGHT_HALF
        },
{
    if frame.screen_h >= RACKET_HEIGHT {
        lemma_racket_stays_on_field(
            game.player_1.y,
            frame.input.player_1_up,
            frame.input.player_1_down,
            frame.dt,
            frame.screen_h,
        );
        lemma_racket_stays_on_field(
            game.player_2.y,
            frame.input.player_2_up,
            frame.input.player_2_down,
            frame.dt,
            frame.screen_h,
        );
    }
}

/// While the ball is in play after its move, a frame does no more to it
/// than the move: no point is given, the velocity stays, and the ball is
/// where the Euler step put it.
pub proof fn lemma_frame_in_play(game: Game, frame: Frame)
    requires
        exit_of(integrated(game.ball, game.velocity, frame.dt).x, frame.screen_w) is None,
    ensures
        game.stepped(frame).ball == integrated(game.ball, game.velocity, frame.dt),
        game.stepped(frame).velocity == game.velocity,
        game.stepped(frame).score_1 == game.score_1,
        game.stepped(frame).score_2 == game.score_2,
{
}

/// On a playfield that has a width, the ball is in play after every look at
/// it, so that a second look in the same frame changes nothing.
pub proof fn lemma_resolved_in_play(
    game: Game,
    screen_w: int,
    screen_h: int,
    heads_x: bool,
    heads_y: bool,
)
    requires
        screen_w >= 0,
    ensures
        exit_of(game.resolved(screen_w, screen_h, heads_x, heads_y).ball.x, screen_w) is None,
        forall|again_x: bool, again_y: bool|
            (#[trigger] game.resolved(screen_w, screen_h, heads_x, heads_y).resolved(
                screen_w,
                screen_h,
                again_x,
                again_y,
            )) == game.resolved(screen_w, screen_h, heads_x, heads_y),
{
}

} // verus!
