use vstd::prelude::*;

verus! {

/// Micro-units in one field unit.
pub const UNIT: i64 = 1_000_000;

/// Width of the play field (centered at the origin), in micro-units.
pub const FIELD_WIDTH: i64 = 800 * UNIT;

/// Height of the play field (centered at the origin), in micro-units.
pub const FIELD_HEIGHT: i64 = 600 * UNIT;

/// Paddle extent along x, in micro-units.
pub const PADDLE_WIDTH: i64 = 10 * UNIT;

/// Paddle extent along y, in micro-units.
pub const PADDLE_HEIGHT: i64 = 100 * UNIT;

/// Paddle speed while a key is held, in field units per second.
pub const PADDLE_VELOCITY: i64 = 180;

/// Highest center y a paddle may reach: half the field height less half
/// the paddle height, in micro-units.
pub const PADDLE_MAX_MOVE: i64 = 250 * UNIT;

/// Lowest center y a paddle may reach, in micro-units.
pub const PADDLE_MIN_MOVE: i64 = -250 * UNIT;

/// Side length of the square ball, in micro-units.
pub const BALL_WIDTH: i64 = 10 * UNIT;

/// Each component of the ball's initial velocity, in field units per second.
pub const BALL_SPEED: i64 = 160;

/// Center x of the left paddle, flush against the left edge.
pub const LEFT_PADDLE_X: i64 = -395 * UNIT;

/// Center x of the right paddle, flush against the right edge.
pub const RIGHT_PADDLE_X: i64 = 395 * UNIT;

} // verus!
