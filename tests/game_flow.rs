use pong::constants::{
    BALL_SPEED, BALL_START_X, BALL_START_Y, HIT_SHAKE, LEFT_PADDLE_X, PADDLE_START_Y,
    PADDLE_WIDTH, SCORE_FLASH, SCORE_SHAKE, SERVE_VEL_Y,
};
use pong::game::{Controls, Effects, Game, GameState};
use pong::particle::Spark;
use pong::random::FrameRolls;
use pong::sim::GameMode;

fn no_keys() -> Controls {
    Controls {
        left_up: false,
        left_down: false,
        right_up: false,
        right_down: false,
        pause: false,
        confirm: false,
        pick_two_player: false,
        pick_vs_ai: false,
        restart: false,
        change_mode: false,
        cancel: false,
    }
}

fn quiet_rolls() -> FrameRolls {
    FrameRolls {
        ai_error: 0,
        sparks: vec![Spark { push: 100_000, vel_y: 0, life: 500_000, size: 3_000 }; 8],
    }
}

fn playing() -> Game {
    let mut g = Game::new();
    g.state = GameState::Playing;
    g
}

#[test]
fn new_game_waits_at_menu() {
    let g = Game::new();
    assert_eq!(g.state, GameState::Menu);
    assert_eq!(g.mode, GameMode::TwoPlayer);
    assert_eq!(g.sim.ball_x, BALL_START_X);
    assert_eq!(g.sim.ball_vel_x, BALL_SPEED);
    assert_eq!(g.sim.ball_vel_y, 75_000);
    assert_eq!(g.sim.left_score, 0);
    assert!(g.particles.is_empty());
}

#[test]
fn menu_to_mode_select_to_play() {
    let mut g = Game::new();
    let r = quiet_rolls();
    assert!(g.frame_with(no_keys(), 16_000, &r));
    assert_eq!(g.state, GameState::Menu);
    assert!(g.frame_with(Controls { confirm: true, ..no_keys() }, 16_000, &r));
    assert_eq!(g.state, GameState::ModeSelect);
    g.frame_with(Controls { pick_vs_ai: true, confirm: true, ..no_keys() }, 16_000, &r);
    assert_eq!(g.mode, GameMode::VsAI);
    assert_eq!(g.state, GameState::ModeSelect);
    g.frame_with(Controls { pick_two_player: true, ..no_keys() }, 16_000, &r);
    assert_eq!(g.mode, GameMode::TwoPlayer);
    g.frame_with(Controls { confirm: true, ..no_keys() }, 16_000, &r);
    assert_eq!(g.state, GameState::Playing);
}

#[test]
fn mode_select_cancel_goes_back_and_stops() {
    let mut g = Game::new();
    g.state = GameState::ModeSelect;
    let running = g.frame_with(Controls { cancel: true, ..no_keys() }, 16_000, &quiet_rolls());
    assert!(!running);
    assert_eq!(g.state, GameState::Menu);
}

#[test]
fn cancel_stops_from_menu() {
    let mut g = Game::new();
    assert!(!g.frame_with(Controls { cancel: true, ..no_keys() }, 16_000, &quiet_rolls()));
}

#[test]
fn pause_freezes_and_resumes() {
    let mut g = playing();
    let r = quiet_rolls();
    g.frame_with(Controls { pause: true, ..no_keys() }, 16_000, &r);
    assert_eq!(g.state, GameState::Paused);
    let x = g.sim.ball_x;
    g.frame_with(no_keys(), 16_000, &r);
    assert_eq!(g.sim.ball_x, x);
    assert_eq!(g.state, GameState::Paused);
    g.frame_with(Controls { pause: true, ..no_keys() }, 16_000, &r);
    assert_eq!(g.state, GameState::Playing);
}

#[test]
fn playing_frame_moves_ball_and_paddles() {
    let mut g = playing();
    g.frame_with(Controls { left_down: true, right_up: true, ..no_keys() }, 16_000, &quiet_rolls());
    assert_eq!(g.sim.ball_x, BALL_START_X + 4_000);
    assert_eq!(g.sim.ball_y, BALL_START_Y + 1_200);
    assert_eq!(g.sim.left_paddle_vel, 249_600);
    assert_eq!(g.sim.left_paddle_y, PADDLE_START_Y + 3_993);
    assert_eq!(g.sim.right_paddle_vel, -249_600);
    assert_eq!(g.sim.right_paddle_y, PADDLE_START_Y - 3_993);
}

#[test]
fn opponent_moves_right_paddle() {
    let mut g = playing();
    g.mode = GameMode::VsAI;
    g.sim.ball_y = 100_000;
    g.sim.ball_vel_y = 0;
    g.frame_with(no_keys(), 10_000, &quiet_rolls());
    assert_eq!(g.sim.right_paddle_vel, -210_000);
    assert_eq!(g.sim.right_paddle_y, PADDLE_START_Y - 2_100);
}

#[test]
fn left_exit_scores_for_right() {
    let mut g = playing();
    g.sim.ball_x = -14_000;
    g.sim.ball_vel_x = -250_000;
    g.sim.current_ball_speed = 275_625;
    g.frame_with(no_keys(), 16_000, &quiet_rolls());
    assert_eq!(g.sim.right_score, 1);
    assert_eq!(g.sim.left_score, 0);
    assert_eq!(g.sim.ball_x, BALL_START_X);
    assert_eq!(g.sim.ball_y, BALL_START_Y);
    assert_eq!(g.sim.ball_vel_x, BALL_SPEED);
    assert_eq!(g.sim.ball_vel_y, SERVE_VEL_Y);
    assert_eq!(g.sim.current_ball_speed, BALL_SPEED);
    assert_eq!(g.effects.score_flash_timer, SCORE_FLASH - 16_000);
    assert_eq!(g.effects.screen_shake, SCORE_SHAKE - 160_000);
    assert_eq!(g.state, GameState::Playing);
}

#[test]
fn right_exit_scores_for_left() {
    let mut g = playing();
    g.sim.ball_x = 814_000;
    g.sim.ball_vel_x = 250_000;
    g.frame_with(no_keys(), 16_000, &quiet_rolls());
    assert_eq!(g.sim.left_score, 1);
    assert_eq!(g.sim.right_score, 0);
    assert_eq!(g.sim.ball_x, BALL_START_X);
    assert_eq!(g.sim.ball_vel_x, -BALL_SPEED);
    assert_eq!(g.sim.ball_vel_y, SERVE_VEL_Y);
}

#[test]
fn sixth_point_ends_the_match() {
    let mut g = playing();
    g.sim.right_score = 5;
    g.sim.ball_x = -14_000;
    g.sim.ball_vel_x = -250_000;
    g.frame_with(Controls { pause: true, ..no_keys() }, 16_000, &quiet_rolls());
    assert_eq!(g.sim.right_score, 6);
    assert_eq!(g.state, GameState::GameOver);
    let x = g.sim.ball_x;
    g.frame_with(no_keys(), 16_000, &quiet_rolls());
    assert_eq!(g.sim.ball_x, x);
    assert_eq!(g.state, GameState::GameOver);
}

#[test]
fn fifth_point_does_not_end_the_match() {
    let mut g = playing();
    g.sim.left_score = 4;
    g.sim.ball_x = 814_000;
    g.sim.ball_vel_x = 250_000;
    g.frame_with(no_keys(), 16_000, &quiet_rolls());
    assert_eq!(g.sim.left_score, 5);
    assert_eq!(g.state, GameState::Playing);
}

#[test]
fn paddle_hit_speeds_up_and_sparks() {
    let mut g = playing();
    g.sim.left_paddle_y = 250_000;
    g.sim.ball_x = 74_000;
    g.sim.ball_y = 300_000;
    g.sim.ball_vel_x = -250_000;
    g.sim.ball_vel_y = 0;
    g.frame_with(no_keys(), 10_000, &quiet_rolls());
    assert_eq!(g.sim.current_ball_speed, 262_500);
    assert_eq!(g.sim.ball_vel_x, 262_500);
    assert_eq!(g.sim.ball_vel_y, 0);
    assert_eq!(g.particles.len(), 8);
    assert_eq!(g.particles[0].x, LEFT_PADDLE_X + PADDLE_WIDTH + 1_000);
    assert_eq!(g.particles[0].life, 490_000);
    assert_eq!(g.effects.screen_shake, HIT_SHAKE - 100_000);
}

#[test]
fn ball_speed_grows_over_a_rally_and_resets_on_a_point() {
    let mut g = playing();
    let r = quiet_rolls();
    g.sim.ball_x = 74_000;
    g.sim.ball_y = 300_000;
    g.sim.ball_vel_x = -250_000;
    g.sim.ball_vel_y = 0;
    g.frame_with(no_keys(), 16_000, &r);
    assert_eq!(g.sim.current_ball_speed, 262_500);
    g.sim.ball_x = 722_000;
    g.sim.ball_y = 300_000;
    g.sim.ball_vel_y = 0;
    g.frame_with(no_keys(), 16_000, &r);
    assert_eq!(g.sim.current_ball_speed, 275_625);
    assert_eq!(g.sim.ball_vel_x, -275_625);
    g.sim.ball_x = -14_000;
    g.frame_with(no_keys(), 16_000, &r);
    assert_eq!(g.sim.current_ball_speed, BALL_SPEED);
}

#[test]
fn restart_after_game_over_clears_the_match() {
    let mut g = playing();
    g.sim.left_score = 6;
    g.sim.right_score = 3;
    g.sim.left_paddle_y = 0;
    g.sim.ball_vel_x = -400_000;
    g.state = GameState::GameOver;
    g.effects = Effects { screen_shake: 100_000, score_flash_timer: 200_000 };
    g.mode = GameMode::VsAI;
    g.frame_with(Controls { restart: true, ..no_keys() }, 16_000, &quiet_rolls());
    assert_eq!(g.state, GameState::Playing);
    assert_eq!(g.mode, GameMode::VsAI);
    assert_eq!(g.sim.left_score, 0);
    assert_eq!(g.sim.right_score, 0);
    assert_eq!(g.sim.left_paddle_y, PADDLE_START_Y);
    assert_eq!(g.sim.right_paddle_y, PADDLE_START_Y);
    assert_eq!(g.sim.ball_vel_x, BALL_SPEED);
    assert_eq!(g.sim.ball_vel_y, SERVE_VEL_Y);
    assert!(g.particles.is_empty());
    assert_eq!(g.effects, Effects { screen_shake: 0, score_flash_timer: 0 });
}

#[test]
fn change_mode_after_game_over_resets_to_mode_select() {
    let mut g = playing();
    g.sim.right_score = 6;
    g.state = GameState::GameOver;
    g.frame_with(Controls { change_mode: true, ..no_keys() }, 16_000, &quiet_rolls());
    assert_eq!(g.state, GameState::ModeSelect);
    assert_eq!(g.sim.right_score, 0);
}

#[test]
fn frame_draws_its_own_rolls() {
    let mut g = playing();
    assert!(g.frame(no_keys(), 16_000));
    assert_eq!(g.sim.ball_x, BALL_START_X + 4_000);
}

#[test]
fn winner_banner_depends_on_mode_and_side() {
    let mut g = playing();
    g.state = GameState::GameOver;
    g.sim.left_score = 6;
    assert_eq!(g.winner_text(), "Left Player Wins!");
    g.mode = GameMode::VsAI;
    assert_eq!(g.winner_text(), "You Win!");
    g.sim.left_score = 2;
    g.sim.right_score = 6;
    assert_eq!(g.winner_text(), "AI Wins!");
    g.mode = GameMode::TwoPlayer;
    assert_eq!(g.winner_text(), "Right Player Wins!");
}

#[test]
fn restart_wins_over_change_mode_in_one_frame() {
    let mut g = playing();
    g.sim.left_score = 6;
    g.state = GameState::GameOver;
    g.frame_with(Controls { restart: true, change_mode: true, ..no_keys() }, 16_000, &quiet_rolls());
    assert_eq!(g.state, GameState::Playing);
    assert_eq!(g.sim.left_score, 0);
    assert_eq!(g.sim.left_paddle_y, PADDLE_START_Y);
    assert!(g.particles.is_empty());
}
