//! Facts about whole frames and about the paddle and ball rules, proved from
//! the definitions that the executable functions are held to.
use vstd::prelude::*;
use crate::arith::{lemma_scaled_bound, scaled};
use crate::ball::{boosted, deflected_vel_y, drifted};
use crate::constants::{
    BALL_SIZE, BALL_SPEED, BALL_START_X, BALL_START_Y, MAX_BALL_SPEED, MAX_PADDLE_SPEED,
    PADDLE_HEIGHT, PADDLE_START_Y, SCREEN_WIDTH, SERVE_VEL_Y, WINNING_SCORE,
};
use crate::game::{next_frame, playing_frame, Controls, GameState, GameView};
use crate::paddle::{ai_velocity, paddle_travel, predicted_ball_y, steer_of, steered_velocity, Steer};
use crate::random::RollsView;
use crate::sim::{paddle_ok, steered, GameMode, Simulation};

verus! {

/// Whatever velocity a paddle is asked for, after a move its top lies in
/// `[0, SCREEN_HEIGHT - PADDLE_HEIGHT]`, its speed is at most the cap, and it
/// stands still wherever it was stopped by a wall.
pub proof fn lemma_paddle_stays_in_arena(y: int, vel: int, dt: int)
    requires
        0 <= dt,
    ensures
        paddle_ok(paddle_travel(y, vel, dt).0, paddle_travel(y, vel, dt).1),
        -MAX_PADDLE_SPEED <= paddle_travel(y, vel, dt).1 <= MAX_PADDLE_SPEED,
{
}

/// Steering both paddles, by keys or by the opponent, keeps each in the arena,
/// under the speed cap, and at rest against a wall.
pub proof fn lemma_steering_keeps_paddles_in_arena(
    s: Simulation,
    left: Steer,
    right: Steer,
    mode: GameMode,
    ai_error: int,
    dt: int,
)
    requires
        s.wf(),
        0 <= dt < 0x1_0000_0000,
        -1_000_000_000 <= ai_error <= 1_000_000_000,
    ensures
        paddle_ok(steered(s, left, right, mode, ai_error, dt).left_paddle_y as int,
            steered(s, left, right, mode, ai_error, dt).left_paddle_vel as int),
        paddle_ok(steered(s, left, right, mode, ai_error, dt).right_paddle_y as int,
            steered(s, left, right, mode, ai_error, dt).right_paddle_vel as int),
{
    let lv = steered_velocity(s.left_paddle_vel as int, left, dt);
    let rv = match mode {
        GameMode::TwoPlayer => steered_velocity(s.right_paddle_vel as int, right, dt),
        GameMode::VsAI => ai_velocity(
            s.right_paddle_y as int,
            s.right_paddle_vel as int,
            predicted_ball_y(s.ball_x as int, s.ball_y as int, s.ball_vel_x as int, s.ball_vel_y as int) + ai_error,
        ),
    };
    lemma_paddle_stays_in_arena(s.left_paddle_y as int, lv, dt);
    lemma_paddle_stays_in_arena(s.right_paddle_y as int, rv, dt);
}

/// Every frame, in every state, leaves both paddles in the arena, under the
/// speed cap, and at rest wherever they touch a wall.
pub proof fn lemma_frame_keeps_paddles_in_arena(g: GameView, c: Controls, dt: int, r: RollsView)
    requires
        g.wf(),
        r.wf(),
        0 <= dt < 0x1_0000_0000,
    ensures
        paddle_ok(next_frame(g, c, dt, r).sim.left_paddle_y as int, next_frame(g, c, dt, r).sim.left_paddle_vel as int),
        paddle_ok(next_frame(g, c, dt, r).sim.right_paddle_y as int, next_frame(g, c, dt, r).sim.right_paddle_vel as int),
{
    if g.state == GameState::Playing {
        lemma_steering_keeps_paddles_in_arena(
            g.sim,
            steer_of(c.left_up, c.left_down),
            steer_of(c.right_up, c.right_down),
            g.mode,
            r.ai_error,
            dt,
        );
    }
}

/// A paddle hit never slows the ball within the speed bounds.
pub proof fn lemma_boost_never_slows(speed: int)
    requires
        BALL_SPEED <= speed <= MAX_BALL_SPEED,
    ensures
        speed <= boosted(speed) <= MAX_BALL_SPEED,
{
    assert(speed * 105 >= speed * 100);
    vstd::arithmetic::div_mod::lemma_div_is_ordered(speed * 100, speed * 105, 100);
    vstd::arithmetic::div_mod::lemma_div_by_multiple(speed, 100);
    assert(speed * 100 == 100 * speed);
}

/// Within a frame of play the rally's ball speed never drops unless a point is
/// won, and a point puts it back to the base speed exactly.
pub proof fn lemma_ball_speed_within_rally(g: GameView, c: Controls, dt: int, r: RollsView)
    requires
        g.wf(),
        g.state == GameState::Playing,
        r.wf(),
        0 <= dt < 0x1_0000_0000,
    ensures
        ({
            let n = playing_frame(g, c, dt, r);
            &&& (n.sim.left_score == g.sim.left_score && n.sim.right_score == g.sim.right_score)
                ==> n.sim.current_ball_speed >= g.sim.current_ball_speed
            &&& (n.sim.left_score != g.sim.left_score || n.sim.right_score != g.sim.right_score)
                ==> n.sim.current_ball_speed == BALL_SPEED
        }),
{
    lemma_boost_never_slows(g.sim.current_ball_speed as int);
    lemma_boost_never_slows(boosted(g.sim.current_ball_speed as int));
}

/// A return off the very top of a still paddle leaves at
/// `speed * (0 - 0.5) * 2.5`, that is `-1.25 * speed` (rounded toward zero).
pub proof fn lemma_top_edge_return(speed: int, paddle_y: int)
    requires
        BALL_SPEED <= speed <= MAX_BALL_SPEED,
    ensures
        deflected_vel_y(speed, paddle_y, paddle_y, 0) == -(speed * 5 / 4),
        speed % 4 == 0 ==> 4 * deflected_vel_y(speed, paddle_y, paddle_y, 0) == -5 * speed,
{
    let v = speed * (2 * (paddle_y - paddle_y) - PADDLE_HEIGHT);
    let x = (speed * 5) * 100_000;
    assert(v == -(speed * 100_000)) by (nonlinear_arith)
        requires v == speed * (2 * (paddle_y - paddle_y) - 100_000);
    assert((-v) * 5 == x) by (nonlinear_arith)
        requires v == -(speed * 100_000), x == (speed * 5) * 100_000;
    vstd::arithmetic::div_mod::lemma_div_denominator(x, 100_000, 4);
    vstd::arithmetic::div_mod::lemma_div_by_multiple(speed * 5, 100_000);
    assert(scaled(v, 5, 4 * PADDLE_HEIGHT) == -(speed * 5 / 4));
    assert(scaled(0, 1, 10) == 0);
    if speed % 4 == 0 {
        vstd::arithmetic::div_mod::lemma_fundamental_div_mod(speed, 4);
        let q = speed / 4;
        assert(speed * 5 == (q * 5) * 4) by (nonlinear_arith)
            requires speed == 4 * q;
        vstd::arithmetic::div_mod::lemma_div_by_multiple(q * 5, 4);
    }
}

/// In a frame of play, the ball's new horizontal position decides the point:
/// past the left edge the right side scores, past the right edge the left side
/// does, and either way the ball is served from the centre at base speed,
/// toward the side that won; otherwise both scores stay.
pub proof fn lemma_point_serves_ball(g: GameView, c: Controls, dt: int, r: RollsView)
    requires
        g.state == GameState::Playing,
        g.wf(),
        0 <= dt < 0x1_0000_0000,
    ensures
        ({
            let n = playing_frame(g, c, dt, r);
            let x = drifted(g.sim.ball_x as int, g.sim.ball_vel_x as int, dt);
            &&& x < -BALL_SIZE ==> {
                &&& n.sim.right_score == g.sim.right_score + 1
                &&& n.sim.left_score == g.sim.left_score
                &&& n.sim.ball_vel_x == BALL_SPEED
            }
            &&& x > SCREEN_WIDTH + BALL_SIZE ==> {
                &&& n.sim.left_score == g.sim.left_score + 1
                &&& n.sim.right_score == g.sim.right_score
                &&& n.sim.ball_vel_x == -BALL_SPEED
            }
            &&& (x < -BALL_SIZE || x > SCREEN_WIDTH + BALL_SIZE) ==> {
                &&& n.sim.ball_x == BALL_START_X
                &&& n.sim.ball_y == BALL_START_Y
                &&& n.sim.ball_vel_y == SERVE_VEL_Y
                &&& n.sim.current_ball_speed == BALL_SPEED
            }
            &&& (-BALL_SIZE <= x <= SCREEN_WIDTH + BALL_SIZE) ==> {
                &&& n.sim.left_score == g.sim.left_score
                &&& n.sim.right_score == g.sim.right_score
            }
        }),
{
    let v = g.sim.ball_vel_x as int;
    lemma_scaled_bound(v, dt, 1_000_000, MAX_BALL_SPEED as int);
    assert(MAX_BALL_SPEED * dt <= MAX_BALL_SPEED * 0x1_0000_0000) by (nonlinear_arith)
        requires 0 <= dt < 0x1_0000_0000;
    vstd::arithmetic::div_mod::lemma_div_is_ordered(MAX_BALL_SPEED * dt, MAX_BALL_SPEED * 0x1_0000_0000, 1_000_000);
}

/// A frame of play ends the match exactly when a score reaches the winning
/// score; the match as it stands then is the one of that frame's last point.
pub proof fn lemma_winning_point_ends_match(g: GameView, c: Controls, dt: int, r: RollsView)
    requires
        g.state == GameState::Playing,
    ensures
        ({
            let n = next_frame(g, c, dt, r);
            (n.state == GameState::GameOver) == (n.sim.left_score >= WINNING_SCORE
                || n.sim.right_score >= WINNING_SCORE)
        }),
{
}

/// Restarting after a game over starts a fresh match in play: scores at zero,
/// paddles centred and still, no particles.
pub proof fn lemma_restart_clears_match(g: GameView, c: Controls, dt: int, r: RollsView)
    requires
        g.state == GameState::GameOver,
        c.restart,
        !c.change_mode,
    ensures
        ({
            let n = next_frame(g, c, dt, r);
            &&& n.state == GameState::Playing
            &&& n.mode == g.mode
            &&& n.sim.left_score == 0
            &&& n.sim.right_score == 0
            &&& n.sim.left_paddle_y == PADDLE_START_Y
            &&& n.sim.right_paddle_y == PADDLE_START_Y
            &&& n.sim.left_paddle_vel == 0
            &&& n.sim.right_paddle_vel == 0
            &&& n.sim.current_ball_speed == BALL_SPEED
            &&& n.particles.len() == 0
            &&& n.effects.screen_shake == 0
            &&& n.effects.score_flash_timer == 0
        }),
{
}

} // verus!
