//! Axis-aligned bounding-box collision between a paddle and the ball.

use vstd::prelude::*;
use crate::ball::{Ball, BallV};
use crate::paddle::{Paddle, PaddleV};
use crate::{coord_ok, BALL_SIZE, PADDLE_HEIGHT, PADDLE_WIDTH};

verus! {

/// Two half-open intervals `[a_lo, a_lo + a_len)` and `[b_lo, b_lo + b_len)`
/// overlap: each one starts before the other ends.
pub open spec fn ranges_overlap(a_lo: int, a_len: int, b_lo: int, b_len: int) -> bool {
    a_lo + a_len > b_lo && a_lo < b_lo + b_len
}

/// Two axis-aligned rectangles overlap: their projections overlap on both
/// axes.
pub open spec fn rects_overlap(
    ax: int,
    ay: int,
    aw: int,
    ah: int,
    bx: int,
    by: int,
    bw: int,
    bh: int,
) -> bool {
    ranges_overlap(ax, aw, bx, bw) && ranges_overlap(ay, ah, by, bh)
}

/// A paddle and the ball overlap as axis-aligned rectangles of their fixed
/// sizes.
pub open spec fn paddle_hits_ball(p: PaddleV, b: BallV) -> bool {
    rects_overlap(
        p.x,
        p.y,
        PADDLE_WIDTH as int,
        PADDLE_HEIGHT as int,
        b.x,
        b.y,
        BALL_SIZE as int,
        BALL_SIZE as int,
    )
}

/// The axis-aligned bounding-box test between a paddle and the ball: true
/// exactly when the two rectangles' projections overlap on both axes.
pub fn collides_ball_paddle(paddle: &Paddle, ball: &Ball) -> (r: bool)
    requires
        coord_ok(paddle@.x),
        coord_ok(paddle@.y),
        coord_ok(ball@.x),
        coord_ok(ball@.y),
    ensures
        r == paddle_hits_ball(paddle@, ball@),
{
    paddle.x_pos + PADDLE_WIDTH > ball.x_pos && paddle.x_pos < ball.x_pos + BALL_SIZE
        && paddle.y_pos + PADDLE_HEIGHT > ball.y_pos && paddle.y_pos < ball.y_pos + BALL_SIZE
}

/// Rectangle overlap is symmetric: the test does not care which rectangle
/// is named first.
pub proof fn lemma_overlap_symmetric(
    ax: int,
    ay: int,
    aw: int,
    ah: int,
    bx: int,
    by: int,
    bw: int,
    bh: int,
)
    ensures
        rects_overlap(ax, ay, aw, ah, bx, by, bw, bh) == rects_overlap(
            bx,
            by,
            bw,
            bh,
            ax,
            ay,
            aw,
            ah,
        ),
{
}

} // verus!
