//! Simulation core of a two-paddle ball game: a ball that bounces off the
//! top and bottom walls and scores at the side walls, a paddle steered by the
//! player, a paddle that tracks the ball, and the per-frame rules that tie
//! them together. Everything here works on integer screen coordinates.
use vstd::prelude::*;

pub mod ball;
pub mod game;
pub mod paddle;

verus! {

/// Width of the court, in pixels.
pub const SCREEN_WIDTH: i32 = 1280;

/// Height of the court, in pixels.
pub const SCREEN_HEIGHT: i32 = 800;

/// Magnitude of the ball's velocity on each axis, in pixels per frame.
pub const BALL_SPEED: i32 = 7;

/// Largest radius a ball may have.
pub const MAX_RADIUS: i32 = 100;

/// Bound on coordinates and paddle speeds accepted by the update steps, so
/// that no step overflows.
pub const COORD_BOUND: i32 = 1_000_000;

} // verus!
