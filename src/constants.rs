//! Arena, paddle, ball and opponent constants.
//!
//! Lengths are in milli-pixels (1 px = 1000), times in microseconds, speeds in
//! milli-pixels per second and accelerations in milli-pixels per second squared.
use vstd::prelude::*;

verus! {

/// Microseconds in one second.
pub const MICROS_PER_SECOND: i64 = 1_000_000;

/// Milli-pixels in one pixel.
pub const UNITS_PER_PIXEL: i64 = 1000;

pub const SCREEN_WIDTH: i64 = 800_000;
pub const SCREEN_HEIGHT: i64 = 600_000;

pub const PADDLE_WIDTH: i64 = 15_000;
pub const PADDLE_HEIGHT: i64 = 100_000;
pub const PADDLE_HALF_HEIGHT: i64 = 50_000;
pub const PADDLE_SPEED: i64 = 300_000;
/// Distance between a paddle and its side of the screen.
pub const PADDLE_MARGIN: i64 = 50_000;

pub const BALL_SIZE: i64 = 15_000;
pub const BALL_SPEED: i64 = 250_000;

pub const LEFT_PADDLE_X: i64 = PADDLE_MARGIN;
pub const RIGHT_PADDLE_X: i64 = SCREEN_WIDTH - PADDLE_MARGIN - PADDLE_WIDTH;
pub const PADDLE_START_Y: i64 = 250_000;
/// Lowest top coordinate a paddle may take.
pub const PADDLE_MAX_Y: i64 = SCREEN_HEIGHT - PADDLE_HEIGHT;

pub const BALL_START_X: i64 = 400_000;
pub const BALL_START_Y: i64 = 300_000;

/// Vertical speed of the first serve of a match: 0.3 times the base speed.
pub const OPENING_VEL_Y: i64 = 75_000;
/// Vertical speed of a serve after a point or a restart: half the base speed.
pub const SERVE_VEL_Y: i64 = 125_000;

pub const WINNING_SCORE: u32 = 6;

/// Ball speed after a paddle hit, in percent of the speed before it.
pub const BALL_SPEED_INCREASE_PERCENT: i64 = 105;
pub const MAX_BALL_SPEED: i64 = BALL_SPEED * 2;
/// Speed a paddle snaps to as soon as its key is held.
pub const PADDLE_BASE_SPEED: i64 = 240_000;
/// Extra acceleration while a key stays held.
pub const PADDLE_ACCELERATION: i64 = 600_000;
/// Share of its velocity, in percent, that an idle paddle keeps each frame.
pub const PADDLE_FRICTION_PERCENT: i64 = 85;
pub const MAX_PADDLE_SPEED: i64 = 420_000;

pub const AI_SPEED: i64 = 210_000;
/// Share, in tenths, of the ball's travel to the paddle that the opponent looks ahead.
pub const AI_PREDICTION_TENTHS: i64 = 3;
/// Largest error the opponent adds to its target.
pub const AI_ERROR: i64 = 10_000;
/// Distance from the target under which the opponent stops chasing it.
pub const AI_DEAD_ZONE: i64 = 10_000;

/// Downward acceleration of particles.
pub const PARTICLE_GRAVITY: i64 = 300_000;
/// Longest life a particle may start with.
pub const MAX_PARTICLE_LIFE: i64 = 1_000_000;
/// Bound on a particle's starting speed along either axis.
pub const MAX_PARTICLE_SPEED: i64 = 1_000_000;
/// Particles spawned by one paddle hit.
pub const SPARKS_PER_HIT: usize = 8;

/// Screen shake after a paddle hit.
pub const HIT_SHAKE: i64 = 150_000;
/// Screen shake after a point.
pub const SCORE_SHAKE: i64 = 300_000;
/// Length of the score flash after a point.
pub const SCORE_FLASH: i64 = 500_000;
/// How many times faster than the clock the screen shake runs out.
pub const SHAKE_DECAY_RATE: i64 = 10;

/// Bound on any coordinate that the simulation keeps or hands out.
pub const POSITION_LIMIT: i64 = 1_000_000_000;
/// Bound on a coordinate within one frame, before it is resolved.
pub const REACH_LIMIT: i64 = 100_000_000_000;
/// Bound on any ball speed component that the simulation keeps.
pub const SPEED_LIMIT: i64 = 10_000_000;

} // verus!
