//! Ball physics: flight, wall bounces, paddle returns and points.
use vstd::prelude::*;
use crate::arith::{clamp, clamped, lemma_scaled_bound, scale, scaled};
use crate::constants::{
    BALL_SIZE, BALL_SPEED, BALL_SPEED_INCREASE_PERCENT, LEFT_PADDLE_X, MAX_BALL_SPEED,
    MAX_PADDLE_SPEED, MICROS_PER_SECOND, PADDLE_HEIGHT, PADDLE_WIDTH,
    POSITION_LIMIT, REACH_LIMIT, RIGHT_PADDLE_X, SCREEN_HEIGHT, SPEED_LIMIT,
};

verus! {

/// A coordinate after moving at `vel` for `dt` microseconds.
pub open spec fn drifted(pos: int, vel: int, dt: int) -> int {
    pos + scaled(vel, dt, MICROS_PER_SECOND as int)
}

/// Moves one coordinate of the ball for `dt` microseconds.
pub fn drift(pos: i64, vel: i64, dt: u32) -> (r: i64)
    requires
        -POSITION_LIMIT <= pos <= POSITION_LIMIT,
        -SPEED_LIMIT <= vel <= SPEED_LIMIT,
    ensures
        r == drifted(pos as int, vel as int, dt as int),
        -REACH_LIMIT <= r <= REACH_LIMIT,
{
    let dt = dt as i64;
    assert(-SPEED_LIMIT * 0x1_0000_0000 <= vel * dt <= SPEED_LIMIT * 0x1_0000_0000) by (nonlinear_arith)
        requires -SPEED_LIMIT <= vel <= SPEED_LIMIT, 0 <= dt < 0x1_0000_0000;
    let step = scale(vel, dt, MICROS_PER_SECOND);
    proof {
        lemma_scaled_bound(vel as int, dt as int, MICROS_PER_SECOND as int, SPEED_LIMIT as int);
        assert((SPEED_LIMIT * dt) / (MICROS_PER_SECOND as int) <= SPEED_LIMIT * 0x1_0000_0000 / 1_000_000) by {
            vstd::arithmetic::div_mod::lemma_div_is_ordered(SPEED_LIMIT * dt, SPEED_LIMIT * 0x1_0000_0000, 1_000_000);
        }
    }
    pos + step
}

/// The ball's height and vertical velocity once the walls are resolved: on
/// contact with the top or bottom band the velocity turns over and the height
/// is pulled back inside.
pub open spec fn wall_bounced(y: int, vel_y: int) -> (int, int) {
    if y <= BALL_SIZE || y >= SCREEN_HEIGHT - BALL_SIZE {
        (clamped(y, BALL_SIZE as int, SCREEN_HEIGHT - BALL_SIZE), -vel_y)
    } else {
        (y, vel_y)
    }
}

/// Resolves contact with the top and bottom walls.
pub fn bounce_off_walls(y: i64, vel_y: i64) -> (r: (i64, i64))
    requires
        vel_y > i64::MIN,
    ensures
        r.0 == wall_bounced(y as int, vel_y as int).0,
        r.1 == wall_bounced(y as int, vel_y as int).1,
        BALL_SIZE <= r.0 <= SCREEN_HEIGHT - BALL_SIZE,
        y >= SCREEN_HEIGHT - BALL_SIZE ==> r.1 == -vel_y && r.0 == SCREEN_HEIGHT - BALL_SIZE,
        y <= BALL_SIZE ==> r.1 == -vel_y && r.0 == BALL_SIZE,
{
    if y <= BALL_SIZE || y >= SCREEN_HEIGHT - BALL_SIZE {
        (clamp(y, BALL_SIZE, SCREEN_HEIGHT - BALL_SIZE), -vel_y)
    } else {
        (y, vel_y)
    }
}

/// The ball, grown by its size, overlaps the left paddle while moving toward it.
pub open spec fn hits_left_paddle(ball_x: int, ball_y: int, vel_x: int, paddle_y: int) -> bool {
    &&& ball_x - BALL_SIZE <= LEFT_PADDLE_X + PADDLE_WIDTH
    &&& ball_x + BALL_SIZE >= LEFT_PADDLE_X
    &&& ball_y + BALL_SIZE >= paddle_y
    &&& ball_y - BALL_SIZE <= paddle_y + PADDLE_HEIGHT
    &&& vel_x < 0
}

/// The ball, grown by its size, overlaps the right paddle while moving toward it.
pub open spec fn hits_right_paddle(ball_x: int, ball_y: int, vel_x: int, paddle_y: int) -> bool {
    &&& ball_x + BALL_SIZE >= RIGHT_PADDLE_X
    &&& ball_x - BALL_SIZE <= RIGHT_PADDLE_X + PADDLE_WIDTH
    &&& ball_y + BALL_SIZE >= paddle_y
    &&& ball_y - BALL_SIZE <= paddle_y + PADDLE_HEIGHT
    &&& vel_x > 0
}

/// Tests a hit on the left paddle.
pub fn left_paddle_hit(ball_x: i64, ball_y: i64, vel_x: i64, paddle_y: i64) -> (r: bool)
    requires
        -REACH_LIMIT <= ball_x <= REACH_LIMIT,
        -REACH_LIMIT <= ball_y <= REACH_LIMIT,
        -REACH_LIMIT <= paddle_y <= REACH_LIMIT,
    ensures
        r == hits_left_paddle(ball_x as int, ball_y as int, vel_x as int, paddle_y as int),
{
    ball_x - BALL_SIZE <= LEFT_PADDLE_X + PADDLE_WIDTH && ball_x + BALL_SIZE >= LEFT_PADDLE_X
        && ball_y + BALL_SIZE >= paddle_y && ball_y - BALL_SIZE <= paddle_y + PADDLE_HEIGHT
        && vel_x < 0
}

/// Tests a hit on the right paddle.
pub fn right_paddle_hit(ball_x: i64, ball_y: i64, vel_x: i64, paddle_y: i64) -> (r: bool)
    requires
        -REACH_LIMIT <= ball_x <= REACH_LIMIT,
        -REACH_LIMIT <= ball_y <= REACH_LIMIT,
        -REACH_LIMIT <= paddle_y <= REACH_LIMIT,
    ensures
        r == hits_right_paddle(ball_x as int, ball_y as int, vel_x as int, paddle_y as int),
{
    ball_x + BALL_SIZE >= RIGHT_PADDLE_X && ball_x - BALL_SIZE <= RIGHT_PADDLE_X + PADDLE_WIDTH
        && ball_y + BALL_SIZE >= paddle_y && ball_y - BALL_SIZE <= paddle_y + PADDLE_HEIGHT
        && vel_x > 0
}

/// Ball speed after a paddle hit: five percent faster, up to the cap.
pub open spec fn boosted(speed: int) -> int {
    let up = speed * BALL_SPEED_INCREASE_PERCENT / 100;
    if up < MAX_BALL_SPEED { up } else { MAX_BALL_SPEED as int }
}

/// Raises the ball speed after a paddle hit.
pub fn boost_speed(speed: i64) -> (r: i64)
    requires
        BALL_SPEED <= speed <= MAX_BALL_SPEED,
    ensures
        r == boosted(speed as int),
        speed <= r <= MAX_BALL_SPEED,
{
    let up: i64 = speed * BALL_SPEED_INCREASE_PERCENT / 100;
    if up < MAX_BALL_SPEED { up } else { MAX_BALL_SPEED }
}

/// Vertical velocity after a paddle hit. The hit position runs from 0 at the
/// paddle's top to 1 at its bottom; the result is
/// `speed * (hit - 0.5) * 2.5 + paddle_vel * 0.1`, each term rounded toward zero.
pub open spec fn deflected_vel_y(speed: int, ball_y: int, paddle_y: int, paddle_vel: int) -> int {
    scaled(speed * (2 * (ball_y - paddle_y) - PADDLE_HEIGHT), 5, 4 * PADDLE_HEIGHT)
        + scaled(paddle_vel, 1, 10)
}

/// Computes the vertical velocity after a paddle hit.
pub fn deflect(speed: i64, ball_y: i64, paddle_y: i64, paddle_vel: i64) -> (r: i64)
    requires
        BALL_SPEED <= speed <= MAX_BALL_SPEED,
        -BALL_SIZE <= ball_y - paddle_y <= PADDLE_HEIGHT + BALL_SIZE,
        -MAX_PADDLE_SPEED <= paddle_vel <= MAX_PADDLE_SPEED,
    ensures
        r == deflected_vel_y(speed as int, ball_y as int, paddle_y as int, paddle_vel as int),
        -1_000_000 <= r <= 1_000_000,
{
    let offset: i64 = 2 * (ball_y - paddle_y) - PADDLE_HEIGHT;
    assert(-65_000_000_000 <= speed * offset <= 65_000_000_000) by (nonlinear_arith)
        requires BALL_SPEED <= speed <= MAX_BALL_SPEED, -130_000 <= offset <= 130_000;
    let tilt = scale(speed * offset, 5, 4 * PADDLE_HEIGHT);
    let spin = scale(paddle_vel, 1, 10);
    proof {
        lemma_scaled_bound(speed * offset, 5, 4 * PADDLE_HEIGHT, 65_000_000_000);
        lemma_scaled_bound(paddle_vel as int, 1, 10, MAX_PADDLE_SPEED as int);
    }
    tilt + spin
}

} // verus!
