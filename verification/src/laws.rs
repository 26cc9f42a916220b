//! The simulation's laws, each stated over the spec functions that the
//! executable contracts use and proved for every state the law admits.
use vstd::prelude::*;
use crate::field::{Direction, CENTER_X, CENTER_Y, PLAYER_HEIGHT, WINDOW_HEIGHT};
use crate::paddle::{moved, PlayerV};
use crate::render::{draw_requests, DrawCmd};
use crate::state::{collision_resolved, crosses_vertical, exits_left, exits_right,
    hits_left_paddle, hits_right_paddle, MainState, StateV};

verus! {

/// Clamping: wherever a paddle stands and whichever way it is told to
/// move, its height after the step lies within
/// [0, field height - paddle height].
pub proof fn lemma_paddle_clamped(p: PlayerV, dir: Direction)
    ensures
        0 <= moved(p, dir).y <= WINDOW_HEIGHT - PLAYER_HEIGHT,
{
}

/// Scoring: one resolution awards at most one point, never to both
/// players, and never takes one away.
pub proof fn lemma_score_step(s: StateV, dy: int)
    ensures
        collision_resolved(s, dy).score_left >= s.score_left,
        collision_resolved(s, dy).score_right >= s.score_right,
        (collision_resolved(s, dy).score_left - s.score_left)
            + (collision_resolved(s, dy).score_right - s.score_right) == 0
            || (collision_resolved(s, dy).score_left - s.score_left)
                + (collision_resolved(s, dy).score_right - s.score_right) == 1,
        !(collision_resolved(s, dy).score_left > s.score_left
            && collision_resolved(s, dy).score_right > s.score_right),
{
}

/// After a score event the ball stands exactly at the field's center.
pub proof fn lemma_score_resets_ball(s: StateV, dy: int)
    requires
        exits_left(s) || exits_right(s),
    ensures
        collision_resolved(s, dy).ball.x == CENTER_X,
        collision_resolved(s, dy).ball.y == CENTER_Y,
        collision_resolved(s, dy).score_left + collision_resolved(s, dy).score_right
            == s.score_left + s.score_right + 1,
{
}

/// Reflection at a vertical wall: with no goal exit and neither paddle
/// touched, a ball beyond the top or bottom edge has its vertical
/// direction negated and everything else — horizontal direction,
/// position, paddles, score — left unchanged.
pub proof fn lemma_vertical_bounce(s: StateV, dy: int)
    requires
        !exits_left(s),
        !exits_right(s),
        crosses_vertical(s.ball),
        !hits_left_paddle(s.ball, s.player_1),
        !hits_right_paddle(s.ball, s.player_2),
    ensures
        collision_resolved(s, dy).ball.dir_y == -s.ball.dir_y,
        collision_resolved(s, dy).ball.dir_x == s.ball.dir_x,
        collision_resolved(s, dy).ball.x == s.ball.x,
        collision_resolved(s, dy).ball.y == s.ball.y,
        collision_resolved(s, dy).player_1 == s.player_1,
        collision_resolved(s, dy).player_2 == s.player_2,
        collision_resolved(s, dy).score_left == s.score_left,
        collision_resolved(s, dy).score_right == s.score_right,
{
}

/// Reflection at a paddle: with no goal exit, no vertical bounce, and
/// the ball on exactly one paddle, its horizontal direction is negated
/// and everything else — vertical direction, position, paddles,
/// score — left unchanged.
pub proof fn lemma_paddle_bounce(s: StateV, dy: int)
    requires
        !exits_left(s),
        !exits_right(s),
        !crosses_vertical(s.ball),
        hits_left_paddle(s.ball, s.player_1) != hits_right_paddle(s.ball, s.player_2),
    ensures
        collision_resolved(s, dy).ball.dir_x == -s.ball.dir_x,
        collision_resolved(s, dy).ball.dir_y == s.ball.dir_y,
        collision_resolved(s, dy).ball.x == s.ball.x,
        collision_resolved(s, dy).ball.y == s.ball.y,
        collision_resolved(s, dy).player_1 == s.player_1,
        collision_resolved(s, dy).player_2 == s.player_2,
        collision_resolved(s, dy).score_left == s.score_left,
        collision_resolved(s, dy).score_right == s.score_right,
{
}

/// Drawing is idempotent: draw requests are a function of the state
/// alone, so any two calls with no tick in between emit the same list.
pub proof fn lemma_draw_idempotent(s: MainState, r1: Seq<DrawCmd>, r2: Seq<DrawCmd>)
    requires
        r1 == draw_requests(s),
        r2 == draw_requests(s),
    ensures
        r1 == r2,
{
}

} // verus!
