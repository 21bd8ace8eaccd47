use vstd::prelude::*;
use crate::field::{BALL_SPEED, BALL_WIDTH, FIELD_HEIGHT};
use crate::geometry::{Position, Velocity, displacement, travel};

verus! {

/// The ball: its center, in micro-units, and its velocity, in units per
/// second.
#[derive(Clone, Copy, Debug, PartialEq, Eq, Structural)]
pub struct Ball {
    pub position: Position,
    pub velocity: Velocity,
}

pub open spec fn fits_i64(v: int) -> bool {
    i64::MIN <= v <= i64::MAX
}

/// Both velocity components can be negated without overflow.
pub open spec fn ball_wf(b: Ball) -> bool {
    b.velocity.x != i64::MIN && b.velocity.y != i64::MIN
}

/// The center after `dt` microseconds of straight motion is representable.
pub open spec fn can_move(b: Ball, dt: u64) -> bool {
    fits_i64(b.position.x + displacement(b.velocity.x, dt))
        && fits_i64(b.position.y + displacement(b.velocity.y, dt))
}

/// The ball's top edge is above the field or its bottom edge below it.
pub open spec fn hits_wall(y: int) -> bool {
    y + BALL_WIDTH / 2 > FIELD_HEIGHT / 2 || y - BALL_WIDTH / 2 < -(FIELD_HEIGHT / 2)
}

/// The ball after one frame: the center advances by velocity times `dt`,
/// and the vertical velocity is inverted when the new center puts the
/// ball past the top or bottom wall.
pub open spec fn moved(b: Ball, dt: u64) -> Ball {
    let x = b.position.x + displacement(b.velocity.x, dt);
    let y = b.position.y + displacement(b.velocity.y, dt);
    Ball {
        position: Position { x: x as i64, y: y as i64 },
        velocity: Velocity {
            x: b.velocity.x,
            y: if hits_wall(y) {
                -b.velocity.y
            } else {
                b.velocity.y as int
            } as i64,
        },
    }
}

impl Ball {
    pub open spec fn new_spec() -> Ball {
        Ball { position: Position { x: 0, y: 0 }, velocity: Velocity { x: BALL_SPEED, y: BALL_SPEED } }
    }

    /// A ball at the origin with its initial velocity.
    pub fn new() -> (r: Ball)
        ensures
            r == Ball::new_spec(),
            r.position == (Position { x: 0, y: 0 }),
            r.velocity == (Velocity { x: BALL_SPEED, y: BALL_SPEED }),
            ball_wf(r),
    {
        Ball { position: Position { x: 0, y: 0 }, velocity: Velocity { x: BALL_SPEED, y: BALL_SPEED } }
    }
}

/// Advances the ball by one frame of `dt` microseconds and reflects it off
/// the top and bottom walls. The position is not pulled back onto the
/// field.
pub fn move_ball(ball: &mut Ball, dt: u64)
    requires
        ball_wf(*old(ball)),
        can_move(*old(ball), dt),
    ensures
        *final(ball) == moved(*old(ball), dt),
        ball_wf(*final(ball)),
        final(ball).velocity.x == old(ball).velocity.x,
        final(ball).velocity.y == if hits_wall(final(ball).position.y as int) {
            -old(ball).velocity.y
        } else {
            old(ball).velocity.y as int
        },
{
    let x: i128 = ball.position.x as i128 + travel(ball.velocity.x, dt);
    let y: i128 = ball.position.y as i128 + travel(ball.velocity.y, dt);
    ball.position = Position { x: x as i64, y: y as i64 };
    let half: i128 = (BALL_WIDTH / 2) as i128;
    let top: i128 = (FIELD_HEIGHT / 2) as i128;
    if y - half < -top || y + half > top {
        ball.velocity.y = -ball.velocity.y;
    }
}

} // verus!
