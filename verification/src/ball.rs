//! The ball: a position, a direction and a scalar speed, advanced one
//! exact step per tick and re-served from the center after a goal.
use vstd::prelude::*;
use crate::field::{Side, BALL_SPEED, CENTER_X, CENTER_Y, MAX_STEP, SCALE, WINDOW_HEIGHT,
    WINDOW_WIDTH};
use crate::sample::sample_direction;

verus! {

/// The ball.  Coordinates and direction components are in counts (see
/// `field`); `speed` is in field units per tick.
pub struct Ball {
    pub x: i64,
    pub y: i64,
    pub speed: i64,
    pub dir_x: i64,
    pub dir_y: i64,
}

/// Mathematical model of a ball.
pub struct BallV {
    pub x: int,
    pub y: int,
    pub speed: int,
    pub dir_x: int,
    pub dir_y: int,
}

impl View for Ball {
    type V = BallV;

    open spec fn view(&self) -> BallV {
        BallV {
            x: self.x as int,
            y: self.y as int,
            speed: self.speed as int,
            dir_x: self.dir_x as int,
            dir_y: self.dir_y as int,
        }
    }
}

/// A height the ball can actually reach: at most one tick's step beyond
/// the field's vertical bounds.  The bounce corrects direction, never
/// position, so the ball may overshoot the edge by one step.
pub open spec fn in_vertical_band(y: int) -> bool {
    -MAX_STEP <= y <= WINDOW_HEIGHT + MAX_STEP
}

/// The height lies within the field proper.
pub open spec fn on_field_vertically(y: int) -> bool {
    0 <= y <= WINDOW_HEIGHT
}

/// A ball as it stands between ticks: constant speed, direction
/// components of at most one unit, horizontal position inside the
/// field, height within one step of it, and, when the ball sits beyond
/// a vertical edge, its direction already points so that the coming
/// step returns it to a reachable height (the bounce has been applied).
pub open spec fn ball_wf(b: BallV) -> bool {
    &&& b.speed == BALL_SPEED
    &&& -SCALE <= b.dir_x <= SCALE
    &&& -SCALE <= b.dir_y <= SCALE
    &&& 0 <= b.x <= WINDOW_WIDTH
    &&& in_vertical_band(b.y)
    &&& (!on_field_vertically(b.y) ==> in_vertical_band(b.y + b.dir_y * b.speed))
}

/// A ball as it stands after its move but before collision resolution:
/// it may overshoot the field by one step on either axis, and an
/// out-of-field height was reached from a reachable one (undoing the
/// step lands in the band).
pub open spec fn ball_mid_wf(b: BallV) -> bool {
    &&& b.speed == BALL_SPEED
    &&& -SCALE <= b.dir_x <= SCALE
    &&& -SCALE <= b.dir_y <= SCALE
    &&& -MAX_STEP <= b.x <= WINDOW_WIDTH + MAX_STEP
    &&& in_vertical_band(b.y)
    &&& (!on_field_vertically(b.y) ==> in_vertical_band(b.y - b.dir_y * b.speed))
}

/// One tick of motion: the position advances by direction times speed,
/// componentwise and exactly; nothing else changes.
pub open spec fn stepped(b: BallV) -> BallV {
    BallV {
        x: b.x + b.dir_x * b.speed,
        y: b.y + b.dir_y * b.speed,
        speed: b.speed,
        dir_x: b.dir_x,
        dir_y: b.dir_y,
    }
}

/// The horizontal direction a re-served ball takes: a full unit toward
/// the given side.
pub open spec fn side_dir(toward: Side) -> int {
    match toward {
        Side::Left => -SCALE as int,
        Side::Right => SCALE as int,
    }
}

/// A re-served ball: recentered, heading toward the given side with the
/// given vertical direction component, speed kept.
pub open spec fn reset_ball(b: BallV, toward: Side, dir_y: int) -> BallV {
    BallV {
        x: CENTER_X as int,
        y: CENTER_Y as int,
        speed: b.speed,
        dir_x: side_dir(toward),
        dir_y: dir_y,
    }
}

impl Ball {
    /// A ball at the field's center with the given direction and the
    /// fixed ball speed.
    pub fn with_direction(dir_x: i64, dir_y: i64) -> (b: Ball)
        requires
            -SCALE <= dir_x < SCALE,
            -SCALE <= dir_y < SCALE,
        ensures
            b@ == (BallV {
                x: CENTER_X as int,
                y: CENTER_Y as int,
                speed: BALL_SPEED as int,
                dir_x: dir_x as int,
                dir_y: dir_y as int,
            }),
            ball_wf(b@),
    {
        Ball { x: CENTER_X, y: CENTER_Y, speed: BALL_SPEED, dir_x, dir_y }
    }

    /// A ball at the field's center with a freshly sampled direction,
    /// each component independently drawn from [-1, 1) units.
    pub fn new() -> (b: Ball)
        ensures
            ball_wf(b@),
            b@.x == CENTER_X,
            b@.y == CENTER_Y,
            b@.speed == BALL_SPEED,
            -SCALE <= b@.dir_x < SCALE,
            -SCALE <= b@.dir_y < SCALE,
    {
        let dir_x = sample_direction();
        let dir_y = sample_direction();
        Ball::with_direction(dir_x, dir_y)
    }

    /// Advance the ball one tick: position += direction * speed,
    /// exactly, with no clamping.
    pub fn update(&mut self)
        requires
            ball_wf(old(self)@),
        ensures
            final(self)@ == stepped(old(self)@),
            final(self)@.x == old(self)@.x + old(self)@.dir_x * old(self)@.speed,
            final(self)@.y == old(self)@.y + old(self)@.dir_y * old(self)@.speed,
            ball_mid_wf(final(self)@),
    {
        proof {
            assert(self@.dir_x * self@.speed == self@.dir_x * (BALL_SPEED as int));
            assert(self@.dir_y * self@.speed == self@.dir_y * (BALL_SPEED as int));
            assert(-MAX_STEP <= self@.dir_x * (BALL_SPEED as int) <= MAX_STEP);
            assert(-MAX_STEP <= self@.dir_y * (BALL_SPEED as int) <= MAX_STEP);
        }
        self.x = self.x + self.dir_x * self.speed;
        self.y = self.y + self.dir_y * self.speed;
    }

    /// Re-serve the ball toward the given side with the given vertical
    /// direction component.
    pub fn reset_with(&mut self, toward: Side, dir_y: i64)
        requires
            -SCALE <= dir_y < SCALE,
        ensures
            final(self)@ == reset_ball(old(self)@, toward, dir_y as int),
            ball_wf(old(self)@) ==> ball_wf(final(self)@),
    {
        self.x = CENTER_X;
        self.y = CENTER_Y;
        self.dir_x = match toward {
            Side::Left => -SCALE,
            Side::Right => SCALE,
        };
        self.dir_y = dir_y;
    }

    /// Re-serve the ball toward the given side, resampling its vertical
    /// direction component from [-1, 1) units.
    pub fn reset(&mut self, toward: Side)
        ensures
            exists|dy: int|
                -SCALE <= dy < SCALE && final(self)@ == reset_ball(old(self)@, toward, dy),
            ball_wf(old(self)@) ==> ball_wf(final(self)@),
    {
        let dir_y = sample_direction();
        self.reset_with(toward, dir_y);
        proof {
            assert(-SCALE <= (dir_y as int) < SCALE);
            assert(self@ == reset_ball(old(self)@, toward, dir_y as int));
        }
    }
}

} // verus!
