//! The whole simulation state and its per-tick resolution: advance the
//! ball, settle wall exits, bounces and scoring, then apply input.
use vstd::prelude::*;
use crate::ball::{ball_mid_wf, ball_wf, reset_ball, stepped, Ball, BallV};
use crate::field::{Direction, InputSnapshot, Side, BALL_SPEED, CENTER_X, CENTER_Y,
    PLAYER_HEIGHT, PLAYER_SPEED, PLAYER_START_Y, PLAYER_WIDTH, SCALE, WINDOW_WIDTH,
    WINDOW_HEIGHT};
use crate::paddle::{moved, player_wf, side_x, Player, PlayerV};

verus! {

/// The simulation: one ball, two paddles, and the running score.  The
/// left player's score is `score.0`, the right player's `score.1`.
pub struct MainState {
    pub player_1: Player,
    pub player_2: Player,
    pub ball: Ball,
    pub score: (u32, u32),
}

/// Mathematical model of the simulation state.
pub struct StateV {
    pub ball: BallV,
    pub player_1: PlayerV,
    pub player_2: PlayerV,
    pub score_left: int,
    pub score_right: int,
}

impl View for MainState {
    type V = StateV;

    open spec fn view(&self) -> StateV {
        StateV {
            ball: self.ball@,
            player_1: self.player_1@,
            player_2: self.player_2@,
            score_left: self.score.0 as int,
            score_right: self.score.1 as int,
        }
    }
}

/// A simulation state between ticks: both entities well formed and the
/// scores representable.
pub open spec fn state_wf(s: StateV) -> bool {
    &&& ball_wf(s.ball)
    &&& player_wf(s.player_1)
    &&& player_wf(s.player_2)
    &&& 0 <= s.score_left <= u32::MAX
    &&& 0 <= s.score_right <= u32::MAX
}

/// A simulation state in the middle of a tick, after the ball moved
/// but before collisions were settled.
pub open spec fn state_mid_wf(s: StateV) -> bool {
    &&& ball_mid_wf(s.ball)
    &&& player_wf(s.player_1)
    &&& player_wf(s.player_2)
    &&& 0 <= s.score_left < u32::MAX
    &&& 0 <= s.score_right < u32::MAX
}

/// Room for one more point on each counter.
pub open spec fn score_headroom(s: StateV) -> bool {
    &&& s.score_left < u32::MAX
    &&& s.score_right < u32::MAX
}

/// The ball has left the field past the left goal.
pub open spec fn exits_left(s: StateV) -> bool {
    s.ball.x < 0
}

/// The ball has left the field past the right goal.
pub open spec fn exits_right(s: StateV) -> bool {
    s.ball.x > WINDOW_WIDTH
}

/// The ball sits beyond the top or bottom edge.
pub open spec fn crosses_vertical(b: BallV) -> bool {
    b.y < 0 || b.y > WINDOW_HEIGHT
}

/// The left paddle's collision test, kept literally as the simulation
/// applies it: the lower horizontal bound compares the ball against the
/// paddle's width, not against the paddle's own post, and the vertical
/// containment is strict.
pub open spec fn hits_left_paddle(b: BallV, p: PlayerV) -> bool {
    &&& b.x <= p.x + PLAYER_WIDTH
    &&& b.x > PLAYER_WIDTH
    &&& p.y < b.y < p.y + PLAYER_HEIGHT
}

/// The right paddle's collision test: the ball lies within the paddle's
/// horizontal span, strictly within its vertical one.
pub open spec fn hits_right_paddle(b: BallV, p: PlayerV) -> bool {
    &&& b.x >= p.x
    &&& b.x < p.x + PLAYER_WIDTH
    &&& p.y < b.y < p.y + PLAYER_HEIGHT
}

/// The same state with another ball.
pub open spec fn with_ball(s: StateV, b: BallV) -> StateV {
    StateV {
        ball: b,
        player_1: s.player_1,
        player_2: s.player_2,
        score_left: s.score_left,
        score_right: s.score_right,
    }
}

/// First check: a ball past the left goal scores for the right player
/// and is re-served toward the right, with `dy` as the fresh vertical
/// direction component.
pub open spec fn resolve_left_exit(s: StateV, dy: int) -> StateV {
    if exits_left(s) {
        StateV {
            ball: reset_ball(s.ball, Side::Right, dy),
            player_1: s.player_1,
            player_2: s.player_2,
            score_left: s.score_left,
            score_right: s.score_right + 1,
        }
    } else {
        s
    }
}

/// Second check: a ball past the right goal scores for the left player
/// and is re-served toward the left.
pub open spec fn resolve_right_exit(s: StateV, dy: int) -> StateV {
    if exits_right(s) {
        StateV {
            ball: reset_ball(s.ball, Side::Left, dy),
            player_1: s.player_1,
            player_2: s.player_2,
            score_left: s.score_left + 1,
            score_right: s.score_right,
        }
    } else {
        s
    }
}

/// Third check: beyond the top or bottom edge the vertical direction is
/// negated; the position is left as it is.
pub open spec fn resolve_vertical(s: StateV) -> StateV {
    if crosses_vertical(s.ball) {
        with_ball(s, BallV { dir_y: -s.ball.dir_y, ..s.ball })
    } else {
        s
    }
}

/// Fourth check: a ball on the left paddle has its horizontal direction
/// negated.
pub open spec fn resolve_left_paddle(s: StateV) -> StateV {
    if hits_left_paddle(s.ball, s.player_1) {
        with_ball(s, BallV { dir_x: -s.ball.dir_x, ..s.ball })
    } else {
        s
    }
}

/// Fifth check: the same against the right paddle.
pub open spec fn resolve_right_paddle(s: StateV) -> StateV {
    if hits_right_paddle(s.ball, s.player_2) {
        with_ball(s, BallV { dir_x: -s.ball.dir_x, ..s.ball })
    } else {
        s
    }
}

/// The whole collision and scoring resolution of one tick: the five
/// checks in their fixed order, each applied to the outcome of the one
/// before, with `dy` the vertical direction a re-served ball would get.
pub open spec fn collision_resolved(s: StateV, dy: int) -> StateV {
    resolve_right_paddle(resolve_left_paddle(resolve_vertical(resolve_right_exit(
        resolve_left_exit(s, dy),
        dy,
    ))))
}

/// One whole tick: the ball steps, then collisions and scoring settle.
pub open spec fn ticked(s: StateV, dy: int) -> StateV {
    collision_resolved(with_ball(s, stepped(s.ball)), dy)
}

/// The four key bindings applied in their fixed order: up then down for
/// the left paddle, up then down for the right one.
pub open spec fn input_applied(s: StateV, i: InputSnapshot) -> StateV {
    let p1a = if i.p1_up { moved(s.player_1, Direction::Up) } else { s.player_1 };
    let p1b = if i.p1_down { moved(p1a, Direction::Down) } else { p1a };
    let p2a = if i.p2_up { moved(s.player_2, Direction::Up) } else { s.player_2 };
    let p2b = if i.p2_down { moved(p2a, Direction::Down) } else { p2a };
    StateV {
        ball: s.ball,
        player_1: p1b,
        player_2: p2b,
        score_left: s.score_left,
        score_right: s.score_right,
    }
}

/// One whole frame: the tick, then the input.
pub open spec fn updated(s: StateV, i: InputSnapshot, dy: int) -> StateV {
    input_applied(ticked(s, dy), i)
}

impl MainState {
    /// A fresh game: ball served from the center with a random
    /// direction, paddles centered at their posts, no points yet.
    pub fn new() -> (s: MainState)
        ensures
            state_wf(s@),
            score_headroom(s@),
            s@.score_left == 0,
            s@.score_right == 0,
            s@.player_1 == (PlayerV {
                x: side_x(Side::Left),
                y: PLAYER_START_Y as int,
                speed: PLAYER_SPEED as int,
            }),
            s@.player_2 == (PlayerV {
                x: side_x(Side::Right),
                y: PLAYER_START_Y as int,
                speed: PLAYER_SPEED as int,
            }),
            s@.ball.x == CENTER_X,
            s@.ball.y == CENTER_Y,
            s@.ball.speed == BALL_SPEED,
            -SCALE <= s@.ball.dir_x < SCALE,
            -SCALE <= s@.ball.dir_y < SCALE,
    {
        MainState {
            ball: Ball::new(),
            player_1: Player::new(Side::Left),
            player_2: Player::new(Side::Right),
            score: (0, 0),
        }
    }

    /// Settle this tick's wall exits, scoring, and bounces, in the
    /// fixed order of `collision_resolved`; `dy` is the vertical
    /// direction component a re-served ball was dealt.
    pub fn check_collision(&mut self)
        requires
            state_mid_wf(old(self)@),
        ensures
            exists|dy: int|
                -SCALE <= dy < SCALE && final(self)@ == collision_resolved(old(self)@, dy),
            state_wf(final(self)@),
    {
        let ghost s0 = self@;
        let ghost mut dy_w: int = 0;
        if self.ball.x < 0 {
            self.score.1 = self.score.1 + 1;
            self.ball.reset(Side::Right);
            proof {
                dy_w = choose|dy: int|
                    -SCALE <= dy < SCALE && self.ball@ == reset_ball(s0.ball, Side::Right, dy);
            }
        }
        let ghost s1 = resolve_left_exit(s0, dy_w);
        proof {
            assert(self@ == s1);
        }
        if self.ball.x > WINDOW_WIDTH {
            self.score.0 = self.score.0 + 1;
            self.ball.reset(Side::Left);
            proof {
                dy_w = choose|dy: int|
                    -SCALE <= dy < SCALE && self.ball@ == reset_ball(s1.ball, Side::Left, dy);
                assert(resolve_left_exit(s0, dy_w) == s1);
            }
        }
        let ghost s2 = resolve_right_exit(resolve_left_exit(s0, dy_w), dy_w);
        proof {
            assert(self@ == s2);
        }
        if self.ball.y < 0 || self.ball.y > WINDOW_HEIGHT {
            self.ball.dir_y = -self.ball.dir_y;
        }
        let ghost s3 = resolve_vertical(s2);
        proof {
            assert(self@ == s3);
        }
        if self.ball.x <= self.player_1.x + PLAYER_WIDTH && self.ball.x > PLAYER_WIDTH {
            if self.ball.y > self.player_1.y && self.ball.y < self.player_1.y + PLAYER_HEIGHT {
                self.ball.dir_x = -self.ball.dir_x;
            }
        }
        let ghost s4 = resolve_left_paddle(s3);
        proof {
            assert(self@ == s4);
        }
        if self.ball.x >= self.player_2.x && self.ball.x < self.player_2.x + PLAYER_WIDTH {
            if self.ball.y > self.player_2.y && self.ball.y < self.player_2.y + PLAYER_HEIGHT {
                self.ball.dir_x = -self.ball.dir_x;
            }
        }
        proof {
            assert(self@ == resolve_right_paddle(s4));
            assert(-SCALE <= dy_w < SCALE && self@ == collision_resolved(s0, dy_w));
        }
    }

    /// One tick of physics: the ball advances one exact step, then the
    /// collision and scoring resolution runs.
    pub fn tick(&mut self)
        requires
            state_wf(old(self)@),
            score_headroom(old(self)@),
        ensures
            exists|dy: int| -SCALE <= dy < SCALE && final(self)@ == ticked(old(self)@, dy),
            state_wf(final(self)@),
    {
        let ghost s0 = self@;
        self.ball.update();
        proof {
            assert(self@ == with_ball(s0, stepped(s0.ball)));
        }
        self.check_collision();
        proof {
            let dy_w = choose|dy: int|
                -SCALE <= dy < SCALE
                    && self@ == collision_resolved(with_ball(s0, stepped(s0.ball)), dy);
            assert(-SCALE <= dy_w < SCALE && self@ == ticked(s0, dy_w));
        }
    }

    /// Apply one input snapshot: each held binding moves its paddle one
    /// step, paddles independent of one another.
    pub fn on_input(&mut self, input: &InputSnapshot)
        requires
            player_wf(old(self)@.player_1),
            player_wf(old(self)@.player_2),
        ensures
            final(self)@ == input_applied(old(self)@, *input),
            player_wf(final(self)@.player_1),
            player_wf(final(self)@.player_2),
    {
        if input.p1_up {
            self.player_1.move_player(Direction::Up);
        }
        if input.p1_down {
            self.player_1.move_player(Direction::Down);
        }
        if input.p2_up {
            self.player_2.move_player(Direction::Up);
        }
        if input.p2_down {
            self.player_2.move_player(Direction::Down);
        }
    }

    /// One whole frame: physics and collision resolution, then input.
    pub fn update(&mut self, input: &InputSnapshot)
        requires
            state_wf(old(self)@),
            score_headroom(old(self)@),
        ensures
            exists|dy: int|
                -SCALE <= dy < SCALE && final(self)@ == updated(old(self)@, *input, dy),
            state_wf(final(self)@),
    {
        let ghost s0 = self@;
        self.tick();
        let ghost dy_w = choose|dy: int|
            -SCALE <= dy < SCALE && self@ == ticked(s0, dy);
        self.on_input(input);
        proof {
            assert(-SCALE <= dy_w < SCALE && self@ == updated(s0, *input, dy_w));
        }
    }
}

} // verus!
