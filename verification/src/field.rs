//! Playing-field geometry and the shared vocabulary of the simulation.
//!
//! All coordinates and direction components are integers counted in
//! thousandths of a field unit: one unit is `SCALE` counts, so the
//! 800 x 600 field spans `800 * SCALE` by `600 * SCALE` counts.  A
//! direction component of `SCALE` stands for a full unit per unit of
//! speed, and speeds are whole units per tick, so the per-tick
//! displacement in counts is exactly `direction * speed`.
use vstd::prelude::*;

verus! {

/// Counts per field unit.
pub const SCALE: i64 = 1000;

/// Field width, in counts.
pub const WINDOW_WIDTH: i64 = 800 * SCALE;

/// Field height, in counts.
pub const WINDOW_HEIGHT: i64 = 600 * SCALE;

/// Horizontal center of the field, in counts.
pub const CENTER_X: i64 = 400 * SCALE;

/// Vertical center of the field, in counts.
pub const CENTER_Y: i64 = 300 * SCALE;

/// Ball speed, in field units per tick.
pub const BALL_SPEED: i64 = 5;

/// Radius of the drawn ball, in counts.
pub const BALL_RADIUS: i64 = 10 * SCALE;

/// The farthest the ball can move in one tick, in counts: a full-unit
/// direction component times the ball speed.
pub const MAX_STEP: i64 = BALL_SPEED * SCALE;

/// Paddle width, in counts.
pub const PLAYER_WIDTH: i64 = 30 * SCALE;

/// Paddle height, in counts.
pub const PLAYER_HEIGHT: i64 = 50 * SCALE;

/// Paddle speed, in field units per tick.
pub const PLAYER_SPEED: i64 = 10;

/// Horizontal inset of each paddle from its goal edge, in counts.
pub const DISTANCE_PLAYER_GOAL: i64 = 20 * SCALE;

/// Starting height of a paddle: vertically centered, that is
/// (field height - paddle height) / 2, in counts.
pub const PLAYER_START_Y: i64 = 275 * SCALE;

/// Where the score line is drawn, in counts.
pub const SCORE_TEXT_X: i64 = 50 * SCALE;

/// Where the score line is drawn, in counts.
pub const SCORE_TEXT_Y: i64 = 10 * SCALE;

/// Which goal a paddle defends, and which way a freshly served ball
/// heads off.
#[derive(Clone, Copy, Debug, PartialEq, Eq, Structural)]
pub enum Side {
    Left,
    Right,
}

/// A vertical movement request for a paddle.
#[derive(Clone, Copy, Debug, PartialEq, Eq, Structural)]
pub enum Direction {
    Up,
    Down,
}

/// The four key bindings the simulation reads each tick, sampled by the
/// presentation layer into one immutable value: up and down for the
/// left paddle, up and down for the right paddle.
#[derive(Clone, Copy, Debug, PartialEq, Eq, Structural)]
pub struct InputSnapshot {
    pub p1_up: bool,
    pub p1_down: bool,
    pub p2_up: bool,
    pub p2_down: bool,
}

} // verus!
