use vstd::prelude::*;
use crate::ball::Ball;
use crate::field::FIELD_WIDTH;
use crate::geometry::Position;

verus! {

/// Points won by each side.
#[derive(Clone, Copy, Debug, PartialEq, Eq, Structural)]
pub struct Score {
    pub left: u32,
    pub right: u32,
}

/// The ball's center is past the left edge of the field.
pub open spec fn out_left(b: Ball) -> bool {
    b.position.x < -(FIELD_WIDTH / 2)
}

/// The ball's center is past the right edge of the field.
pub open spec fn out_right(b: Ball) -> bool {
    b.position.x > FIELD_WIDTH / 2
}

/// The counter that this ball would raise is below its largest value, so
/// the point can be counted.
pub open spec fn can_award(s: Score, b: Ball) -> bool {
    &&& out_left(b) ==> s.right < u32::MAX
    &&& out_right(b) ==> s.left < u32::MAX
}

/// The ball put back at the origin, its velocity kept.
pub open spec fn served(b: Ball) -> Ball {
    Ball { position: Position { x: 0, y: 0 }, ..b }
}

/// Score and ball after the scoring check: a ball out on the left gives the
/// right side a point, one out on the right gives the left side a point,
/// and in either case the ball goes back to the origin.
pub open spec fn scored(s: Score, b: Ball) -> (Score, Ball) {
    if out_left(b) {
        (Score { right: (s.right + 1) as u32, ..s }, served(b))
    } else if out_right(b) {
        (Score { left: (s.left + 1) as u32, ..s }, served(b))
    } else {
        (s, b)
    }
}

impl Score {
    /// Both counters at zero.
    pub fn new() -> (r: Score)
        ensures
            r.left == 0,
            r.right == 0,
    {
        Score { left: 0, right: 0 }
    }
}

/// Awards a point when the ball's center has left the field on the left or
/// right, and then puts the ball back at the origin with its velocity.
pub fn score(score: &mut Score, ball: &mut Ball)
    requires
        out_left(*old(ball)) ==> old(score).right < u32::MAX,
        out_right(*old(ball)) ==> old(score).left < u32::MAX,
    ensures
        (*final(score), *final(ball)) == scored(*old(score), *old(ball)),
        final(ball).velocity == old(ball).velocity,
        out_left(*old(ball)) ==> final(score).right == old(score).right + 1
            && final(score).left == old(score).left
            && final(ball).position == (Position { x: 0, y: 0 }),
        out_right(*old(ball)) ==> final(score).left == old(score).left + 1
            && final(score).right == old(score).right
            && final(ball).position == (Position { x: 0, y: 0 }),
        !out_left(*old(ball)) && !out_right(*old(ball)) ==> *final(score) == *old(score)
            && *final(ball) == *old(ball),
        -(FIELD_WIDTH / 2) <= final(ball).position.x <= FIELD_WIDTH / 2,
{
    if ball.position.x < -(FIELD_WIDTH / 2) {
        score.right = score.right + 1;
        ball.position = Position { x: 0, y: 0 };
    }
    if ball.position.x > FIELD_WIDTH / 2 {
        score.left = score.left + 1;
        ball.position = Position { x: 0, y: 0 };
    }
}

/// Decimal digit `d` as a character.
pub open spec fn digit_char(d: int) -> char {
    ((d + 48) as u8) as char
}

/// Decimal notation of `n`, without leading zeros.
pub open spec fn decimal(n: nat) -> Seq<char>
    decreases n,
{
    if n < 10 {
        seq![digit_char(n as int)]
    } else {
        decimal(n / 10).push(digit_char((n % 10) as int))
    }
}

/// Relies on String::push: appends one character.
#[verifier::external_body]
fn push_char(s: &mut String, c: char)
    ensures
        final(s)@ == old(s)@.push(c),
{
    s.push(c);
}

/// Writes `n` in decimal.
pub fn decimal_string(n: u32) -> (r: String)
    ensures
        r@ == decimal(n as nat),
    decreases n,
{
    let mut s = if n < 10 {
        String::new()
    } else {
        decimal_string(n / 10)
    };
    let d: u8 = (n % 10) as u8;
    push_char(&mut s, (d + 48) as char);
    proof {
        if n < 10 {
            assert(s@ =~= seq![digit_char(n as int)]);
        }
    }
    s
}

/// The two scores as display strings, left then right. A pure read: calling
/// it again on the same score gives the same strings.
pub fn show_score(score: &Score) -> (r: (String, String))
    ensures
        r.0@ == decimal(score.left as nat),
        r.1@ == decimal(score.right as nat),
{
    (decimal_string(score.left), decimal_string(score.right))
}

/// Reading the scores out twice, with no frame in between, gives identical
/// strings.
pub proof fn lemma_readout_repeats(s: Score, first: (String, String), second: (String, String))
    requires
        first.0@ == decimal(s.left as nat),
        first.1@ == decimal(s.right as nat),
        second.0@ == decimal(s.left as nat),
        second.1@ == decimal(s.right as nat),
    ensures
        first.0@ == second.0@,
        first.1@ == second.1@,
{
}

} // verus!
