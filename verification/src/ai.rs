//! The reactive heuristic that steers the second paddle toward the ball.

use vstd::prelude::*;
use crate::ball::Ball;
use crate::paddle::Paddle;

verus! {

/// Half-width of the hysteresis band around the paddle's center, in pixels.
/// The heuristic leaves the paddle's intent unchanged while the ball stays
/// within this distance of the center.
pub const AI_DISTANCE: i32 = 180;

/// The vertical center of the paddle, as the heuristic computes it.
pub open spec fn paddle_middle(paddle: Paddle) -> int {
    paddle.pos_bounds.y + paddle.pos_bounds.height / 2
}

/// Steers the paddle toward the ball with a hysteresis band: the intent
/// becomes +1 when the ball's top edge lies more than [`AI_DISTANCE`] below
/// the paddle's center, -1 when it lies more than [`AI_DISTANCE`] above, and
/// is left as it was while the ball stays within the band.
pub fn ai_move_paddle(paddle: &mut Paddle, ball: &Ball)
    requires
        old(paddle).pos_bounds.in_range(),
        ball.pos_bounds.in_range(),
    ensures
        final(paddle).pos_bounds == old(paddle).pos_bounds,
        ball.pos_bounds.y > paddle_middle(*old(paddle)) + AI_DISTANCE
            ==> final(paddle).y_offset == 1,
        ball.pos_bounds.y < paddle_middle(*old(paddle)) - AI_DISTANCE
            ==> final(paddle).y_offset == -1,
        paddle_middle(*old(paddle)) - AI_DISTANCE
            <= ball.pos_bounds.y
            <= paddle_middle(*old(paddle)) + AI_DISTANCE
            ==> *final(paddle) == *old(paddle),
{
    let middle: i64 = paddle.pos_bounds.y as i64 + (paddle.pos_bounds.height / 2) as i64;

    if ball.pos_bounds.y as i64 > middle + AI_DISTANCE as i64 {
        paddle.move_offset(1);
    } else if (ball.pos_bounds.y as i64) < middle - AI_DISTANCE as i64 {
        paddle.move_offset(-1);
    }
}

} // verus!
