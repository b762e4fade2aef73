//! Paddles and the input mapper: one frame of key-driven paddle movement,
//! clamped to the vertical screen bounds.

use vstd::prelude::*;
use crate::{DT_LIMIT, PADDLE_HEIGHT, PADDLE_SPEED, SCREEN_HEIGHT};

verus! {

/// Which side a paddle belongs to.
#[derive(Clone, Copy, PartialEq, Eq, Structural, Debug)]
pub enum PaddleType {
    Player,
    Enemy,
}

/// A paddle: top-left corner in milli-pixels; its width and height are the
/// crate-level constants.
#[derive(Clone, Copy, PartialEq, Eq, Structural, Debug)]
pub struct Paddle {
    pub x_pos: i64,
    pub y_pos: i64,
    pub paddle_type: PaddleType,
}

/// Mathematical model of a paddle.
#[verifier::ext_equal]
pub ghost struct PaddleV {
    pub x: int,
    pub y: int,
    pub role: PaddleType,
}

impl View for Paddle {
    type V = PaddleV;

    open spec fn view(&self) -> PaddleV {
        PaddleV { x: self.x_pos as int, y: self.y_pos as int, role: self.paddle_type }
    }
}

/// The vertical band a paddle's top edge may occupy: the paddle stays fully
/// on screen.
pub open spec fn paddle_y_in_range(y: int) -> bool {
    0 <= y <= SCREEN_HEIGHT - PADDLE_HEIGHT
}

/// Clamps a top-edge position to the vertical screen bounds.
pub open spec fn clamp_y(y: int) -> int {
    if y < 0 {
        0
    } else if y > SCREEN_HEIGHT - PADDLE_HEIGHT {
        SCREEN_HEIGHT - PADDLE_HEIGHT
    } else {
        y
    }
}

/// One frame of the input mapper for a single paddle: while the up key is
/// held and the paddle is not at the top bound it moves up by
/// `PADDLE_SPEED * dt`, else while the down key is held and the paddle is
/// not at the bottom bound it moves down by the same amount; only one
/// direction applies per frame, and the result is clamped to the screen.
pub open spec fn move_paddle_spec(y: int, up: bool, down: bool, dt: int) -> int {
    if up && y > 0 {
        clamp_y(y - PADDLE_SPEED * dt)
    } else if down && y + PADDLE_HEIGHT < SCREEN_HEIGHT {
        clamp_y(y + PADDLE_SPEED * dt)
    } else {
        y
    }
}

/// Applies one frame of key input to a paddle.
pub fn move_paddle(p: &mut Paddle, up: bool, down: bool, dt: u64)
    requires
        paddle_y_in_range(old(p)@.y),
        dt <= DT_LIMIT,
    ensures
        final(p)@.y == move_paddle_spec(old(p)@.y, up, down, dt as int),
        final(p)@.x == old(p)@.x,
        final(p)@.role == old(p)@.role,
        paddle_y_in_range(final(p)@.y),
{
    let step: i64 = PADDLE_SPEED * (dt as i64);
    if up && p.y_pos > 0 {
        if p.y_pos - step < 0 {
            p.y_pos = 0;
        } else {
            p.y_pos = p.y_pos - step;
        }
    } else if down && p.y_pos + PADDLE_HEIGHT < SCREEN_HEIGHT {
        if p.y_pos + step > SCREEN_HEIGHT - PADDLE_HEIGHT {
            p.y_pos = SCREEN_HEIGHT - PADDLE_HEIGHT;
        } else {
            p.y_pos = p.y_pos + step;
        }
    }
}

/// One frame of the input mapper keeps a clamped paddle clamped.
pub proof fn lemma_paddle_step_clamped(y: int, up: bool, down: bool, dt: int)
    requires
        paddle_y_in_range(y),
        dt >= 0,
    ensures
        paddle_y_in_range(move_paddle_spec(y, up, down, dt)),
{
}

/// One frame of key input for a paddle: which keys are held and how much
/// time the frame covers.
pub ghost struct PaddleCmd {
    pub up: bool,
    pub down: bool,
    pub dt: int,
}

/// The paddle position after a whole sequence of input-mapper frames.
pub open spec fn paddle_y_after(y: int, cmds: Seq<PaddleCmd>) -> int
    decreases cmds.len(),
{
    if cmds.len() == 0 {
        y
    } else {
        paddle_y_after(move_paddle_spec(y, cmds[0].up, cmds[0].down, cmds[0].dt), cmds.drop_first())
    }
}

/// No sequence of held-key frames ever drives a paddle outside
/// `[0, SCREEN_HEIGHT - PADDLE_HEIGHT]`.
pub proof fn lemma_paddle_never_leaves_screen(y: int, cmds: Seq<PaddleCmd>)
    requires
        paddle_y_in_range(y),
        forall|i: int| 0 <= i < cmds.len() ==> cmds[i].dt >= 0,
    ensures
        paddle_y_in_range(paddle_y_after(y, cmds)),
    decreases cmds.len(),
{
    if cmds.len() > 0 {
        let y1 = move_paddle_spec(y, cmds[0].up, cmds[0].down, cmds[0].dt);
        lemma_paddle_step_clamped(y, cmds[0].up, cmds[0].down, cmds[0].dt);
        assert(forall|i: int|
            0 <= i < cmds.drop_first().len() ==> #[trigger] cmds.drop_first()[i].dt >= 0);
        lemma_paddle_never_leaves_screen(y1, cmds.drop_first());
    }
}

} // verus!
