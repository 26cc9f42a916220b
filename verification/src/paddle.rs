//! A paddle: a fixed horizontal post near its goal, moved vertically in
//! fixed steps and clamped so it never leaves the field.
use vstd::prelude::*;
use crate::field::{Direction, Side, DISTANCE_PLAYER_GOAL, PLAYER_HEIGHT, PLAYER_SPEED,
    PLAYER_START_Y, PLAYER_WIDTH, SCALE, WINDOW_HEIGHT, WINDOW_WIDTH};

verus! {

/// A paddle.  Coordinates are in counts (see `field`); `speed` is in
/// field units per tick.
pub struct Player {
    pub x: i64,
    pub y: i64,
    pub speed: i64,
}

/// Mathematical model of a paddle.
pub struct PlayerV {
    pub x: int,
    pub y: int,
    pub speed: int,
}

impl View for Player {
    type V = PlayerV;

    open spec fn view(&self) -> PlayerV {
        PlayerV { x: self.x as int, y: self.y as int, speed: self.speed as int }
    }
}

/// A paddle between ticks: constant speed, horizontal post on the
/// field, and a height that keeps its whole box inside the field.
pub open spec fn player_wf(p: PlayerV) -> bool {
    &&& p.speed == PLAYER_SPEED
    &&& 0 <= p.x <= WINDOW_WIDTH
    &&& 0 <= p.y <= WINDOW_HEIGHT - PLAYER_HEIGHT
}

/// The fixed horizontal post of a paddle defending the given side: a
/// fixed inset from the left wall, or the mirror position at the right.
pub open spec fn side_x(side: Side) -> int {
    match side {
        Side::Left => DISTANCE_PLAYER_GOAL as int,
        Side::Right => (WINDOW_WIDTH - (PLAYER_WIDTH + DISTANCE_PLAYER_GOAL)) as int,
    }
}

/// One movement step: the height shifts by one paddle speed up or down,
/// then is clamped, first so the box's top is not above the field, then
/// so its bottom is not below it.
pub open spec fn moved(p: PlayerV, dir: Direction) -> PlayerV {
    let shifted = (match dir {
        Direction::Up => p.y - p.speed * SCALE,
        Direction::Down => p.y + p.speed * SCALE,
    });
    let lifted = if shifted < 0 { 0 } else { shifted };
    let clamped = if lifted + PLAYER_HEIGHT > WINDOW_HEIGHT {
        (WINDOW_HEIGHT - PLAYER_HEIGHT) as int
    } else {
        lifted
    };
    PlayerV { x: p.x, y: clamped, speed: p.speed }
}

impl Player {
    /// A paddle defending the given side, vertically centered, with the
    /// fixed paddle speed.
    pub fn new(side: Side) -> (p: Player)
        ensures
            p@ == (PlayerV {
                x: side_x(side),
                y: PLAYER_START_Y as int,
                speed: PLAYER_SPEED as int,
            }),
            player_wf(p@),
    {
        let x: i64 = match side {
            Side::Left => DISTANCE_PLAYER_GOAL,
            Side::Right => WINDOW_WIDTH - (PLAYER_WIDTH + DISTANCE_PLAYER_GOAL),
        };
        Player { x, y: PLAYER_START_Y, speed: PLAYER_SPEED }
    }

    /// Move the paddle one step up or down; the result is clamped so
    /// the paddle's box never extends above or below the field.
    pub fn move_player(&mut self, dir: Direction)
        requires
            player_wf(old(self)@),
        ensures
            final(self)@ == moved(old(self)@, dir),
            0 <= final(self)@.y <= WINDOW_HEIGHT - PLAYER_HEIGHT,
            player_wf(final(self)@),
    {
        let step: i64 = match dir {
            Direction::Up => -(self.speed * SCALE),
            Direction::Down => self.speed * SCALE,
        };
        self.y = self.y + step;
        if self.y < 0 {
            self.y = 0;
        }
        if self.y + PLAYER_HEIGHT > WINDOW_HEIGHT {
            self.y = WINDOW_HEIGHT - PLAYER_HEIGHT;
        }
    }
}

} // verus!
