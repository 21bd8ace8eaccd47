use vstd::prelude::*;
use crate::ball::{Ball, ball_wf, can_move, hits_wall, move_ball, moved};
use crate::collision::{bounced, collides, hits_paddle};
use crate::field::{FIELD_WIDTH, LEFT_PADDLE_X, RIGHT_PADDLE_X};
use crate::geometry::{Position, displacement, travel};
use crate::paddle::{Key, Paddle, in_band, lemma_steer_stays_in_band, steered};
use crate::scoring::{Score, can_award, out_left, out_right, score, scored};

verus! {

/// The whole simulation: the ball, the two paddles and the score.
#[derive(Clone, Copy, Debug, PartialEq, Eq, Structural)]
pub struct Game {
    pub ball: Ball,
    pub left: Paddle,
    pub right: Paddle,
    pub score: Score,
}

/// The paddles sit against their edges and within their bands, and the
/// ball's velocity can be negated.
pub open spec fn game_wf(g: Game) -> bool {
    &&& ball_wf(g.ball)
    &&& g.left.position.x == LEFT_PADDLE_X
    &&& g.right.position.x == RIGHT_PADDLE_X
    &&& in_band(g.left.position.y as int)
    &&& in_band(g.right.position.y as int)
}

/// A frame of `dt` microseconds fits the integer types: the ball's new
/// center is representable, and if that center is out of the field, the
/// counter it raises is below its largest value. Collisions never move the
/// ball, so the moved center is the one that the scoring check sees.
pub open spec fn can_step(g: Game, dt: u64) -> bool {
    can_move(g.ball, dt) && can_award(g.score, moved(g.ball, dt))
}

/// The game after one frame: move the paddles, move the ball, resolve
/// collisions against the moved paddles, then check for a point.
pub open spec fn step(g: Game, held: Seq<Key>, dt: u64) -> Game {
    let left = steered(g.left, held, dt as int);
    let right = steered(g.right, held, dt as int);
    let hit = bounced(bounced(moved(g.ball, dt), left), right);
    let after = scored(g.score, hit);
    Game { ball: after.1, left, right, score: after.0 }
}

impl Game {
    /// The starting layout: the ball at the origin with its initial
    /// velocity, the left paddle on W and A, the right one on the arrow
    /// keys, both centered vertically, and no points.
    pub fn new() -> (r: Game)
        ensures
            game_wf(r),
            r.ball == Ball::new_spec(),
            r.left == (Paddle {
                position: Position { x: LEFT_PADDLE_X, y: 0 },
                up_key: Key::W,
                down_key: Key::A,
            }),
            r.right == (Paddle {
                position: Position { x: RIGHT_PADDLE_X, y: 0 },
                up_key: Key::Up,
                down_key: Key::Down,
            }),
            r.score == (Score { left: 0, right: 0 }),
    {
        Game {
            ball: Ball::new(),
            left: Paddle {
                position: Position { x: LEFT_PADDLE_X, y: 0 },
                up_key: Key::W,
                down_key: Key::A,
            },
            right: Paddle {
                position: Position { x: RIGHT_PADDLE_X, y: 0 },
                up_key: Key::Up,
                down_key: Key::Down,
            },
            score: Score::new(),
        }
    }

    /// Whether a frame of `dt` microseconds fits the integer types.
    pub fn can_simulate(&self, dt: u64) -> (r: bool)
        ensures
            r == can_step(*self, dt),
    {
        let x: i128 = self.ball.position.x as i128 + travel(self.ball.velocity.x, dt);
        let y: i128 = self.ball.position.y as i128 + travel(self.ball.velocity.y, dt);
        let lo: i128 = i64::MIN as i128;
        let hi: i128 = i64::MAX as i128;
        if !(lo <= x && x <= hi && lo <= y && y <= hi) {
            return false;
        }
        let half: i128 = (FIELD_WIDTH / 2) as i128;
        (x >= -half || self.score.right < u32::MAX) && (x <= half || self.score.left < u32::MAX)
    }

    /// Runs one frame of `dt` microseconds with the keys `held` pressed.
    pub fn simulate(&mut self, held: &Vec<Key>, dt: u64)
        requires
            game_wf(*old(self)),
            can_step(*old(self), dt),
        ensures
            *final(self) == step(*old(self), held@, dt),
            game_wf(*final(self)),
    {
        let ghost g = *self;
        self.left.steer(held, dt);
        self.right.steer(held, dt);
        proof {
            lemma_steer_stays_in_band(
                g.left.position.y as int,
                dt as nat,
                held@.contains(g.left.up_key),
                held@.contains(g.left.down_key),
            );
            lemma_steer_stays_in_band(
                g.right.position.y as int,
                dt as nat,
                held@.contains(g.right.up_key),
                held@.contains(g.right.down_key),
            );
        }
        move_ball(&mut self.ball, dt);
        collides(&mut self.ball, &self.left, &self.right);
        score(&mut self.score, &mut self.ball);
    }
}

/// The game after the given frames, first frame first: each frame is the
/// keys held and its time delta in microseconds.
pub open spec fn run(g: Game, frames: Seq<(Seq<Key>, u64)>) -> Game
    decreases frames.len(),
{
    if frames.len() == 0 {
        g
    } else {
        let last = frames.last();
        step(run(g, frames.drop_last()), last.0, last.1)
    }
}

/// Whatever the time deltas and keys held, paddles that start within their
/// bands stay within them after any number of frames.
pub proof fn lemma_paddles_stay_in_band(g: Game, frames: Seq<(Seq<Key>, u64)>)
    requires
        in_band(g.left.position.y as int),
        in_band(g.right.position.y as int),
    ensures
        in_band(run(g, frames).left.position.y as int),
        in_band(run(g, frames).right.position.y as int),
    decreases frames.len(),
{
    if frames.len() > 0 {
        let last = frames.last();
        let prev = run(g, frames.drop_last());
        lemma_paddles_stay_in_band(g, frames.drop_last());
        lemma_steer_stays_in_band(
            prev.left.position.y as int,
            last.1 as nat,
            last.0.contains(prev.left.up_key),
            last.0.contains(prev.left.down_key),
        );
        lemma_steer_stays_in_band(
            prev.right.position.y as int,
            last.1 as nat,
            last.0.contains(prev.right.up_key),
            last.0.contains(prev.right.down_key),
        );
    }
}

/// With the paddles against opposite edges, no ball position overlaps both.
pub proof fn lemma_no_double_hit(b: Ball, left: Paddle, right: Paddle)
    requires
        left.position.x == LEFT_PADDLE_X,
        right.position.x == RIGHT_PADDLE_X,
    ensures
        !(hits_paddle(b, left) && hits_paddle(b, right)),
{
}

/// In a frame, the ball's horizontal velocity is inverted exactly when,
/// after it moved, its box overlaps a paddle's box; otherwise it is kept.
pub proof fn lemma_bounce_iff_overlap(g: Game, held: Seq<Key>, dt: u64)
    requires
        game_wf(g),
        can_step(g, dt),
    ensures
        ({
            let b = moved(g.ball, dt);
            let left = steered(g.left, held, dt as int);
            let right = steered(g.right, held, dt as int);
            step(g, held, dt).ball.velocity.x == if hits_paddle(b, left) || hits_paddle(b, right) {
                -g.ball.velocity.x
            } else {
                g.ball.velocity.x as int
            }
        }),
{
    let b = moved(g.ball, dt);
    let left = steered(g.left, held, dt as int);
    let right = steered(g.right, held, dt as int);
    lemma_no_double_hit(b, left, right);
}

/// In a frame, the ball's vertical velocity is inverted exactly when, after
/// it moved, its top edge is above the field or its bottom edge below it;
/// otherwise it is kept.
pub proof fn lemma_wall_flip_iff(g: Game, held: Seq<Key>, dt: u64)
    requires
        game_wf(g),
        can_step(g, dt),
    ensures
        step(g, held, dt).ball.velocity.y == if hits_wall(
            g.ball.position.y + displacement(g.ball.velocity.y, dt),
        ) {
            -g.ball.velocity.y
        } else {
            g.ball.velocity.y as int
        },
{
}

/// In a frame, a ball whose center ends past the left edge gives the right
/// side exactly one point, one past the right edge gives the left side
/// exactly one point; either way the ball restarts at the origin with the
/// velocity it had, and otherwise the score is unchanged.
pub proof fn lemma_point_scored(g: Game, held: Seq<Key>, dt: u64)
    requires
        game_wf(g),
        can_step(g, dt),
    ensures
        ({
            let left = steered(g.left, held, dt as int);
            let right = steered(g.right, held, dt as int);
            let b = bounced(bounced(moved(g.ball, dt), left), right);
            let n = step(g, held, dt);
            &&& out_left(b) ==> n.score.right == g.score.right + 1 && n.score.left == g.score.left
                && n.ball.position == (Position { x: 0, y: 0 }) && n.ball.velocity == b.velocity
            &&& out_right(b) ==> n.score.left == g.score.left + 1 && n.score.right == g.score.right
                && n.ball.position == (Position { x: 0, y: 0 }) && n.ball.velocity == b.velocity
            &&& !out_left(b) && !out_right(b) ==> n.score == g.score && n.ball == b
        }),
{
}

} // verus!
