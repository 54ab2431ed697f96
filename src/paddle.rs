//! Paddle motion: steering by held keys, the computer opponent, and the move
//! that keeps a paddle inside the arena.
use vstd::prelude::*;
use crate::arith::{clamp, clamped, lemma_scaled_bound, lemma_scaled_shrinks, scale, scaled};
use crate::constants::{
    AI_DEAD_ZONE, AI_PREDICTION_TENTHS, AI_SPEED, MAX_PADDLE_SPEED, MICROS_PER_SECOND,
    PADDLE_ACCELERATION, PADDLE_BASE_SPEED, PADDLE_FRICTION_PERCENT, PADDLE_HALF_HEIGHT,
    PADDLE_MAX_Y, POSITION_LIMIT, RIGHT_PADDLE_X, SPEED_LIMIT,
};

verus! {

/// What a player asks of a paddle this frame.
#[derive(Clone, Copy, Debug, PartialEq, Eq, Structural)]
pub enum Steer {
    Up,
    Down,
    Idle,
}

/// The up key wins when both keys are held.
pub open spec fn steer_of(up_held: bool, down_held: bool) -> Steer {
    if up_held {
        Steer::Up
    } else if down_held {
        Steer::Down
    } else {
        Steer::Idle
    }
}

impl Steer {
    /// Reads the two movement keys of one paddle.
    pub fn from_keys(up_held: bool, down_held: bool) -> (r: Steer)
        ensures
            r == steer_of(up_held, down_held),
    {
        if up_held {
            Steer::Up
        } else if down_held {
            Steer::Down
        } else {
            Steer::Idle
        }
    }
}

/// Velocity gained while a key is held for `dt` microseconds.
pub open spec fn buildup(dt: int) -> int {
    PADDLE_ACCELERATION * dt / MICROS_PER_SECOND as int
}

/// Velocity after a player's request, before it is clamped: a held key snaps
/// a slower paddle to the base speed and then accelerates it; an idle paddle
/// keeps a fixed share of its velocity.
pub open spec fn steered_velocity(vel: int, steer: Steer, dt: int) -> int {
    match steer {
        Steer::Up => (if vel > -PADDLE_BASE_SPEED { -PADDLE_BASE_SPEED as int } else { vel }) - buildup(dt),
        Steer::Down => (if vel < PADDLE_BASE_SPEED { PADDLE_BASE_SPEED as int } else { vel }) + buildup(dt),
        Steer::Idle => scaled(vel, PADDLE_FRICTION_PERCENT as int, 100),
    }
}

/// Applies a player's request to a paddle velocity.
pub fn steer_velocity(vel: i64, steer: Steer, dt: u32) -> (r: i64)
    requires
        -MAX_PADDLE_SPEED <= vel <= MAX_PADDLE_SPEED,
    ensures
        r == steered_velocity(vel as int, steer, dt as int),
{
    let dt = dt as i64;
    assert(0 <= PADDLE_ACCELERATION * dt <= PADDLE_ACCELERATION * 0x1_0000_0000) by (nonlinear_arith)
        requires 0 <= dt < 0x1_0000_0000;
    let gain: i64 = PADDLE_ACCELERATION * dt / MICROS_PER_SECOND;
    match steer {
        Steer::Up => {
            let base: i64 = if vel > -PADDLE_BASE_SPEED { -PADDLE_BASE_SPEED } else { vel };
            base - gain
        },
        Steer::Down => {
            let base: i64 = if vel < PADDLE_BASE_SPEED { PADDLE_BASE_SPEED } else { vel };
            base + gain
        },
        Steer::Idle => scale(vel, PADDLE_FRICTION_PERCENT, 100),
    }
}

/// Where the opponent expects the ball: a damped look-ahead while the ball
/// comes toward it, the ball's height otherwise.
pub open spec fn predicted_ball_y(ball_x: int, ball_y: int, vel_x: int, vel_y: int) -> int {
    if vel_x > 0 {
        ball_y + scaled(vel_y * (RIGHT_PADDLE_X - ball_x), AI_PREDICTION_TENTHS as int, 10 * vel_x)
    } else {
        ball_y
    }
}

/// Computes where the opponent expects the ball.
pub fn predict_ball_y(ball_x: i64, ball_y: i64, vel_x: i64, vel_y: i64) -> (r: i64)
    requires
        -POSITION_LIMIT <= ball_x <= POSITION_LIMIT,
        -POSITION_LIMIT <= ball_y <= POSITION_LIMIT,
        -SPEED_LIMIT <= vel_x <= SPEED_LIMIT,
        -SPEED_LIMIT <= vel_y <= SPEED_LIMIT,
    ensures
        r == predicted_ball_y(ball_x as int, ball_y as int, vel_x as int, vel_y as int),
        -100_000_000_000_000_000 <= r <= 100_000_000_000_000_000,
{
    if vel_x > 0 {
        let gap: i64 = RIGHT_PADDLE_X - ball_x;
        assert(-20_000_000_000_000_000 <= vel_y * gap <= 20_000_000_000_000_000) by (nonlinear_arith)
            requires -SPEED_LIMIT <= vel_y <= SPEED_LIMIT, -2 * POSITION_LIMIT <= gap <= 2 * POSITION_LIMIT;
        let along: i64 = vel_y * gap;
        let ahead = scale(along, AI_PREDICTION_TENTHS, 10 * vel_x);
        proof {
            lemma_scaled_bound(along as int, AI_PREDICTION_TENTHS as int, 10 * vel_x, 20_000_000_000_000_000);
            assert(20_000_000_000_000_000 * AI_PREDICTION_TENTHS / (10 * vel_x) <= 20_000_000_000_000_000 * AI_PREDICTION_TENTHS) by {
                vstd::arithmetic::div_mod::lemma_div_is_ordered_by_denominator(20_000_000_000_000_000 * AI_PREDICTION_TENTHS, 1, 10 * vel_x);
            }
        }
        ball_y + ahead
    } else {
        ball_y
    }
}

/// The opponent's velocity: full speed toward a target outside its dead zone,
/// else a gentle slowdown.
pub open spec fn ai_velocity(paddle_y: int, vel: int, target_y: int) -> int {
    let diff = target_y - (paddle_y + PADDLE_HALF_HEIGHT);
    if diff > AI_DEAD_ZONE || diff < -AI_DEAD_ZONE {
        if diff < 0 {
            -AI_SPEED as int
        } else {
            AI_SPEED as int
        }
    } else {
        scaled(vel, 9, 10)
    }
}

/// Chooses the opponent's velocity for a paddle whose top is at `paddle_y`.
pub fn ai_steer(paddle_y: i64, vel: i64, target_y: i64) -> (r: i64)
    requires
        0 <= paddle_y <= PADDLE_MAX_Y,
        -MAX_PADDLE_SPEED <= vel <= MAX_PADDLE_SPEED,
        -200_000_000_000_000_000 <= target_y <= 200_000_000_000_000_000,
    ensures
        r == ai_velocity(paddle_y as int, vel as int, target_y as int),
        -MAX_PADDLE_SPEED <= r <= MAX_PADDLE_SPEED,
{
    let diff: i64 = target_y - (paddle_y + PADDLE_HALF_HEIGHT);
    if diff > AI_DEAD_ZONE || diff < -AI_DEAD_ZONE {
        if diff < 0 {
            -AI_SPEED
        } else {
            AI_SPEED
        }
    } else {
        proof {
            lemma_scaled_shrinks(vel as int, 9, 10);
        }
        scale(vel, 9, 10)
    }
}

/// A paddle after `dt` microseconds: its velocity clamped to the speed cap,
/// its top moved and kept in the arena, and its velocity dropped to zero
/// wherever it rests against a wall.
pub open spec fn paddle_travel(y: int, vel: int, dt: int) -> (int, int) {
    let v = clamped(vel, -MAX_PADDLE_SPEED as int, MAX_PADDLE_SPEED as int);
    let ny = clamped(y + scaled(v, dt, MICROS_PER_SECOND as int), 0, PADDLE_MAX_Y as int);
    (ny, if ny <= 0 || ny >= PADDLE_MAX_Y { 0 } else { v })
}

/// Moves a paddle for `dt` microseconds at velocity `vel`.
pub fn move_paddle(y: i64, vel: i64, dt: u32) -> (r: (i64, i64))
    requires
        -POSITION_LIMIT <= y <= POSITION_LIMIT,
    ensures
        r.0 == paddle_travel(y as int, vel as int, dt as int).0,
        r.1 == paddle_travel(y as int, vel as int, dt as int).1,
        0 <= r.0 <= PADDLE_MAX_Y,
        -MAX_PADDLE_SPEED <= r.1 <= MAX_PADDLE_SPEED,
        r.0 == 0 || r.0 == PADDLE_MAX_Y ==> r.1 == 0,
{
    let v = clamp(vel, -MAX_PADDLE_SPEED, MAX_PADDLE_SPEED);
    let dt = dt as i64;
    assert(-MAX_PADDLE_SPEED * 0x1_0000_0000 <= v * dt <= MAX_PADDLE_SPEED * 0x1_0000_0000) by (nonlinear_arith)
        requires -MAX_PADDLE_SPEED <= v <= MAX_PADDLE_SPEED, 0 <= dt < 0x1_0000_0000;
    let step = scale(v, dt, MICROS_PER_SECOND);
    proof {
        lemma_scaled_bound(v as int, dt as int, MICROS_PER_SECOND as int, MAX_PADDLE_SPEED as int);
        assert((MAX_PADDLE_SPEED * dt) / (MICROS_PER_SECOND as int) <= MAX_PADDLE_SPEED * 0x1_0000_0000) by {
            vstd::arithmetic::div_mod::lemma_div_is_ordered_by_denominator(MAX_PADDLE_SPEED * dt, 1, MICROS_PER_SECOND as int);
        }
    }
    let ny = clamp(y + step, 0, PADDLE_MAX_Y);
    let nv: i64 = if ny <= 0 || ny >= PADDLE_MAX_Y { 0 } else { v };
    (ny, nv)
}

} // verus!
