//! A two-player Pong simulation on exact integer arithmetic.
//!
//! Distances are held in micro-units (millionths of a field unit), time
//! deltas in microseconds and velocities in field units per second, so that
//! a velocity times a time delta is a distance in micro-units with no
//! rounding at all.
pub mod field;
pub mod geometry;
pub mod paddle;
pub mod ball;
pub mod collision;
pub mod scoring;
pub mod game;
