use vstd::prelude::*;
use crate::ball::{Ball, ball_wf};
use crate::field::{BALL_WIDTH, PADDLE_HEIGHT, PADDLE_WIDTH};
use crate::geometry::{Size, Velocity, collide, overlaps};
use crate::paddle::Paddle;

verus! {

pub open spec fn ball_size() -> Size {
    Size { width: BALL_WIDTH, height: BALL_WIDTH }
}

pub open spec fn paddle_size() -> Size {
    Size { width: PADDLE_WIDTH, height: PADDLE_HEIGHT }
}

/// The ball's box overlaps the paddle's box.
pub open spec fn hits_paddle(b: Ball, p: Paddle) -> bool {
    overlaps(b.position, ball_size(), p.position, paddle_size())
}

/// The ball after testing it against one paddle: on overlap its horizontal
/// velocity is inverted, otherwise it is unchanged.
pub open spec fn bounced(b: Ball, p: Paddle) -> Ball {
    if hits_paddle(b, p) {
        Ball { velocity: Velocity { x: (-b.velocity.x) as i64, ..b.velocity }, ..b }
    } else {
        b
    }
}

/// Tests the ball against one paddle and inverts its horizontal velocity
/// if they overlap. There is no correction of the position, so a ball that
/// stays inside a paddle is inverted on every frame.
pub fn bounce(ball: &mut Ball, paddle: &Paddle)
    requires
        ball_wf(*old(ball)),
    ensures
        *final(ball) == bounced(*old(ball), *paddle),
        ball_wf(*final(ball)),
{
    let ball_box = Size { width: BALL_WIDTH, height: BALL_WIDTH };
    let paddle_box = Size { width: PADDLE_WIDTH, height: PADDLE_HEIGHT };
    if collide(ball.position, ball_box, paddle.position, paddle_box) {
        ball.velocity.x = -ball.velocity.x;
    }
}

/// Resolves the collisions of one frame: each overlapping paddle inverts the
/// horizontal velocity once, so overlapping both would cancel out.
pub fn collides(ball: &mut Ball, left: &Paddle, right: &Paddle)
    requires
        ball_wf(*old(ball)),
    ensures
        *final(ball) == bounced(bounced(*old(ball), *left), *right),
        ball_wf(*final(ball)),
        final(ball).position == old(ball).position,
        final(ball).velocity.y == old(ball).velocity.y,
        final(ball).velocity.x == if hits_paddle(*old(ball), *left) != hits_paddle(*old(ball), *right) {
            -old(ball).velocity.x
        } else {
            old(ball).velocity.x as int
        },
{
    bounce(ball, left);
    bounce(ball, right);
}

} // verus!
