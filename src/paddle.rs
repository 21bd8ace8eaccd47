use vstd::prelude::*;
use crate::field::{PADDLE_MAX_MOVE, PADDLE_MIN_MOVE, PADDLE_VELOCITY};
use crate::geometry::Position;

verus! {

/// The keys that steer the paddles.
#[derive(Clone, Copy, Debug, PartialEq, Eq, Structural)]
pub enum Key {
    W,
    A,
    Up,
    Down,
}

/// A paddle: its center and the keys bound to moving it up and down.
#[derive(Clone, Copy, Debug, PartialEq, Eq, Structural)]
pub struct Paddle {
    pub position: Position,
    pub up_key: Key,
    pub down_key: Key,
}

/// Center y is within the band the paddle may occupy.
pub open spec fn in_band(y: int) -> bool {
    PADDLE_MIN_MOVE <= y <= PADDLE_MAX_MOVE
}

/// Center y after one frame of `dt` microseconds: the up key raises it by
/// the paddle's travel, capped at the top of the band; then the down key
/// lowers the result by the same travel, capped at the bottom of the band.
pub open spec fn steered_y(y: int, dt: int, up: bool, down: bool) -> int {
    let travel = PADDLE_VELOCITY * dt;
    let raised = if up {
        if y + travel < PADDLE_MAX_MOVE {
            y + travel
        } else {
            PADDLE_MAX_MOVE as int
        }
    } else {
        y
    };
    if down {
        if raised - travel > PADDLE_MIN_MOVE {
            raised - travel
        } else {
            PADDLE_MIN_MOVE as int
        }
    } else {
        raised
    }
}

/// The paddle after one frame with the keys `held` pressed.
pub open spec fn steered(p: Paddle, held: Seq<Key>, dt: int) -> Paddle {
    Paddle {
        position: Position {
            x: p.position.x,
            y: steered_y(p.position.y as int, dt, held.contains(p.up_key), held.contains(p.down_key))
                as i64,
        },
        ..p
    }
}

/// One frame of paddle input, as used in specifications: its time delta in
/// microseconds and whether the up and the down key are held.
pub struct Frame {
    pub dt: nat,
    pub up: bool,
    pub down: bool,
}

/// Center y after the given frames, first frame first.
pub open spec fn steered_y_over(y: int, frames: Seq<Frame>) -> int
    decreases frames.len(),
{
    if frames.len() == 0 {
        y
    } else {
        let last = frames.last();
        steered_y(steered_y_over(y, frames.drop_last()), last.dt as int, last.up, last.down)
    }
}

/// One frame keeps a paddle that starts within its band within it.
pub proof fn lemma_steer_stays_in_band(y: int, dt: nat, up: bool, down: bool)
    requires
        in_band(y),
    ensures
        in_band(steered_y(y, dt as int, up, down)),
{
}

/// Whatever the time deltas and key states, a paddle that starts within its
/// band stays within it after any number of frames.
pub proof fn lemma_paddle_stays_in_band(y: int, frames: Seq<Frame>)
    requires
        in_band(y),
    ensures
        in_band(steered_y_over(y, frames)),
    decreases frames.len(),
{
    if frames.len() > 0 {
        let last = frames.last();
        lemma_paddle_stays_in_band(y, frames.drop_last());
        lemma_steer_stays_in_band(steered_y_over(y, frames.drop_last()), last.dt, last.up, last.down);
    }
}

/// Whether `key` is among the held keys.
pub fn is_held(held: &Vec<Key>, key: Key) -> (r: bool)
    ensures
        r == held@.contains(key),
{
    let mut i: usize = 0;
    while i < held.len()
        invariant
            i <= held@.len(),
            forall|j: int| 0 <= j < i ==> held@[j] != key,
        decreases held@.len() - i,
    {
        if held[i] == key {
            assert(held@[i as int] == key);
            return true;
        }
        i += 1;
    }
    false
}

impl Paddle {
    /// Moves the paddle for one frame of `dt` microseconds with the keys
    /// `held` pressed; the up key is applied first, then the down key.
    pub fn steer(&mut self, held: &Vec<Key>, dt: u64)
        ensures
            *final(self) == steered(*old(self), held@, dt as int),
            final(self).position.y == steered_y(
                old(self).position.y as int,
                dt as int,
                held@.contains(old(self).up_key),
                held@.contains(old(self).down_key),
            ),
    {
        let v: i128 = PADDLE_VELOCITY as i128;
        let d: i128 = dt as i128;
        assert(v == 180);
        let travel: i128 = v * d;
        let mut y: i128 = self.position.y as i128;
        if is_held(held, self.up_key) {
            let t: i128 = y + travel;
            y = if t < PADDLE_MAX_MOVE as i128 {
                t
            } else {
                PADDLE_MAX_MOVE as i128
            };
        }
        assert(i64::MIN <= y <= i64::MAX);
        if is_held(held, self.down_key) {
            let t: i128 = y - travel;
            y = if t > PADDLE_MIN_MOVE as i128 {
                t
            } else {
                PADDLE_MIN_MOVE as i128
            };
        }
        self.position.y = y as i64;
    }
}

} // verus!
