//! The ball and its physics: position integration, reflection off the
//! horizontal screen bounds, and the randomized rebound velocity a paddle
//! hit produces.

use vstd::prelude::*;
use crate::{
    coord_ok, vel_ok, BALL_HALF_SIZE, BALL_SIZE, DT_LIMIT, PADDLE_HALF_HEIGHT, RAND_UNIT,
    SCREEN_HEIGHT, VEL_LIMIT,
};

verus! {

/// The ball: top-left corner and velocity. Positions are milli-pixels,
/// velocities milli-pixels per millisecond.
#[derive(Clone, Copy, PartialEq, Eq, Structural, Debug)]
pub struct Ball {
    pub x_pos: i64,
    pub y_pos: i64,
    pub x_vel: i64,
    pub y_vel: i64,
}

/// Mathematical model of the ball.
#[verifier::ext_equal]
pub ghost struct BallV {
    pub x: int,
    pub y: int,
    pub vx: int,
    pub vy: int,
}

impl View for Ball {
    type V = BallV;

    open spec fn view(&self) -> BallV {
        BallV {
            x: self.x_pos as int,
            y: self.y_pos as int,
            vx: self.x_vel as int,
            vy: self.y_vel as int,
        }
    }
}

/// A rebound multiplies the strike offset (milli-pixels) by a random number
/// of thousandths of the unit interval and by the deflection scale 10, and
/// brings the product back to milli-pixels per millisecond:
/// 1000 (thousandths) * 1000 (milli-pixels per pixel) / 10 (scale).
pub const DEFLECT_DIVISOR: i64 = 100_000;

/// The rebound distance never exceeds this magnitude: a strike offset is at
/// most half a paddle height plus half a ball size.
pub const DEFLECT_DIST_LIMIT: i64 = 100_000;

/// The vertical velocity after a paddle hit: the distance from the ball's
/// center to the paddle's center, times `r` thousandths of the deflection
/// scale 10, rounded toward zero.
pub open spec fn deflect_spec(dist: int, r: int) -> int {
    if dist >= 0 {
        (dist * r) / (DEFLECT_DIVISOR as int)
    } else {
        -(((-dist) * r) / (DEFLECT_DIVISOR as int))
    }
}

/// Computes the rebound vertical velocity from a strike offset and a random
/// draw. The offset bound holds at every call site because a colliding
/// ball's center is never farther than half a paddle height plus half a
/// ball size from the paddle's center.
pub fn deflect(dist: i64, r: u64) -> (v: i64)
    requires
        -DEFLECT_DIST_LIMIT <= dist <= DEFLECT_DIST_LIMIT,
        r < RAND_UNIT,
    ensures
        v == deflect_spec(dist as int, r as int),
        -1000 < v < 1000,
{
    let mag: u64 = if dist >= 0 {
        dist as u64
    } else {
        (-dist) as u64
    };
    proof {
        assert(mag * r <= 100_000 * 999) by (nonlinear_arith)
            requires
                mag <= 100_000,
                r <= 999,
        ;
        assert((mag * r) / 100_000 <= (100_000 * 999) / 100_000) by (nonlinear_arith)
            requires
                mag * r <= 100_000 * 999,
        ;
    }
    let q: u64 = (mag * r) / (DEFLECT_DIVISOR as u64);
    if dist >= 0 {
        q as i64
    } else {
        -(q as i64)
    }
}

/// The strike offset of a ball against a paddle: the signed distance from
/// the paddle's center to the ball's center, in milli-pixels.
pub open spec fn strike_offset(ball_y: int, paddle_y: int) -> int {
    (ball_y + BALL_HALF_SIZE) - (paddle_y + PADDLE_HALF_HEIGHT)
}

/// The paddle-hit response: the horizontal velocity flips sign and the
/// vertical velocity becomes the randomized rebound for the strike offset.
pub open spec fn bounce_spec(b: BallV, paddle_y: int, r: int) -> BallV {
    BallV { x: b.x, y: b.y, vx: -b.vx, vy: deflect_spec(strike_offset(b.y, paddle_y), r) }
}

/// True when the ball's top or bottom edge has crossed the vertical screen
/// bounds.
pub open spec fn crosses_vertical_bounds(b: BallV) -> bool {
    b.y + BALL_SIZE > SCREEN_HEIGHT || b.y < 0
}

/// Wall reflection: the vertical velocity flips sign exactly when the ball
/// crosses the vertical screen bounds.
pub open spec fn reflect_spec(b: BallV) -> BallV {
    if crosses_vertical_bounds(b) {
        BallV { x: b.x, y: b.y, vx: b.vx, vy: -b.vy }
    } else {
        b
    }
}

/// Position integration: each coordinate advances by its velocity times the
/// elapsed milliseconds; velocity is unchanged.
pub open spec fn integrate_spec(b: BallV, dt: int) -> BallV {
    BallV { x: b.x + b.vx * dt, y: b.y + b.vy * dt, vx: b.vx, vy: b.vy }
}

/// Flips the ball's vertical velocity if it has crossed the vertical screen
/// bounds.
pub fn reflect_off_walls(b: &mut Ball)
    requires
        coord_ok(old(b)@.y),
        vel_ok(old(b)@.vy),
    ensures
        final(b)@ == reflect_spec(old(b)@),
{
    if b.y_pos + BALL_SIZE > SCREEN_HEIGHT || b.y_pos < 0 {
        b.y_vel = -b.y_vel;
    }
}

/// Advances the ball's position by its velocity over `dt` milliseconds.
pub fn integrate(b: &mut Ball, dt: u64)
    requires
        coord_ok(old(b)@.x),
        coord_ok(old(b)@.y),
        vel_ok(old(b)@.vx),
        vel_ok(old(b)@.vy),
        dt <= DT_LIMIT,
    ensures
        final(b)@ == integrate_spec(old(b)@, dt as int),
{
    proof {
        let vx = old(b)@.vx;
        let vy = old(b)@.vy;
        let d = dt as int;
        assert(vx * d <= VEL_LIMIT * DT_LIMIT && -(VEL_LIMIT * DT_LIMIT) <= vx * d)
            by (nonlinear_arith)
            requires
                -VEL_LIMIT <= vx <= VEL_LIMIT,
                0 <= d <= DT_LIMIT,
        ;
        assert(vy * d <= VEL_LIMIT * DT_LIMIT && -(VEL_LIMIT * DT_LIMIT) <= vy * d)
            by (nonlinear_arith)
            requires
                -VEL_LIMIT <= vy <= VEL_LIMIT,
                0 <= d <= DT_LIMIT,
        ;
    }
    b.x_pos = b.x_pos + b.x_vel * (dt as i64);
    b.y_pos = b.y_pos + b.y_vel * (dt as i64);
}

/// With zero elapsed time, integration leaves the position unchanged,
/// whatever the velocity.
pub proof fn lemma_zero_elapsed(b: BallV)
    ensures
        integrate_spec(b, 0).x == b.x,
        integrate_spec(b, 0).y == b.y,
{
}

/// A ball that crosses the vertical screen bounds has its vertical velocity
/// flipped exactly once that frame; one that does not is left untouched.
pub proof fn lemma_wall_reflection(b: BallV)
    ensures
        crosses_vertical_bounds(b) ==> reflect_spec(b).vy == -b.vy,
        !crosses_vertical_bounds(b) ==> reflect_spec(b) == b,
{
}

} // verus!
