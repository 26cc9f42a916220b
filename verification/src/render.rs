//! Rendering as data: each frame the simulation emits a fixed list of
//! draw requests — the score line, the ball, then both paddles — and
//! the presentation layer turns them into actual draw calls.  Nothing
//! here mutates the simulation, so the requests are a function of the
//! state alone.
use vstd::prelude::*;
use crate::ball::Ball;
use crate::field::{BALL_RADIUS, PLAYER_HEIGHT, PLAYER_WIDTH, SCORE_TEXT_X, SCORE_TEXT_Y};
use crate::paddle::Player;
use crate::state::MainState;

verus! {

/// One draw request.  Coordinates and sizes are in counts (see
/// `field`); the presentation layer picks colors and fonts.
#[derive(Clone, Copy, Debug, PartialEq, Eq, Structural)]
pub enum DrawCmd {
    /// The score line, left player's points first.
    ScoreText { left: u32, right: u32, x: i64, y: i64 },
    /// A filled circle centered at (x, y).
    Circle { x: i64, y: i64, radius: i64 },
    /// A filled rectangle with its top-left corner at (x, y).
    Rect { x: i64, y: i64, width: i64, height: i64 },
}

/// The ball's draw request: a filled circle at its position.
pub open spec fn ball_cmd(b: Ball) -> DrawCmd {
    DrawCmd::Circle { x: b.x, y: b.y, radius: BALL_RADIUS }
}

/// A paddle's draw request: its filled box.
pub open spec fn player_cmd(p: Player) -> DrawCmd {
    DrawCmd::Rect { x: p.x, y: p.y, width: PLAYER_WIDTH, height: PLAYER_HEIGHT }
}

/// The score line's draw request at its fixed position.
pub open spec fn score_cmd(s: MainState) -> DrawCmd {
    DrawCmd::ScoreText { left: s.score.0, right: s.score.1, x: SCORE_TEXT_X, y: SCORE_TEXT_Y }
}

/// Everything one frame draws, in order: score line, ball, left paddle,
/// right paddle.
pub open spec fn draw_requests(s: MainState) -> Seq<DrawCmd> {
    seq![score_cmd(s), ball_cmd(s.ball), player_cmd(s.player_1), player_cmd(s.player_2)]
}

impl Ball {
    /// The ball's draw request.
    pub fn draw(&self) -> (c: DrawCmd)
        ensures
            c == ball_cmd(*self),
    {
        DrawCmd::Circle { x: self.x, y: self.y, radius: BALL_RADIUS }
    }
}

impl Player {
    /// The paddle's draw request.
    pub fn draw(&self) -> (c: DrawCmd)
        ensures
            c == player_cmd(*self),
    {
        DrawCmd::Rect { x: self.x, y: self.y, width: PLAYER_WIDTH, height: PLAYER_HEIGHT }
    }
}

impl MainState {
    /// Emit this frame's draw requests.  The simulation is read, never
    /// changed, so with no tick in between every call returns the same
    /// list.
    pub fn draw(&self) -> (cmds: Vec<DrawCmd>)
        ensures
            cmds@ == draw_requests(*self),
    {
        let mut cmds: Vec<DrawCmd> = Vec::new();
        cmds.push(DrawCmd::ScoreText {
            left: self.score.0,
            right: self.score.1,
            x: SCORE_TEXT_X,
            y: SCORE_TEXT_Y,
        });
        cmds.push(self.ball.draw());
        cmds.push(self.player_1.draw());
        cmds.push(self.player_2.draw());
        proof {
            assert(cmds@ =~= draw_requests(*self));
        }
        cmds
    }
}

} // verus!
