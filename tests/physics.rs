use pong::arith::{clamp, scale};
use pong::ball::{boost_speed, bounce_off_walls, deflect, drift, left_paddle_hit, right_paddle_hit};
use pong::constants::{
    BALL_SIZE, BALL_SPEED, MAX_BALL_SPEED, MAX_PADDLE_SPEED, PADDLE_MAX_Y, SCREEN_HEIGHT,
};
use pong::paddle::{ai_steer, move_paddle, predict_ball_y, steer_velocity, Steer};
use pong::particle::{spawn_burst, update_particles, Particle, Spark};
use pong::random::roll_frame;

#[test]
fn scale_rounds_toward_zero() {
    assert_eq!(scale(100_001, 85, 100), 85_000);
    assert_eq!(scale(-100_001, 85, 100), -85_000);
    assert_eq!(scale(0, 3, 7), 0);
}

#[test]
fn clamp_keeps_range() {
    assert_eq!(clamp(-5, 0, 10), 0);
    assert_eq!(clamp(15, 0, 10), 10);
    assert_eq!(clamp(7, 0, 10), 7);
}

#[test]
fn held_key_snaps_to_base_speed_then_accelerates() {
    assert_eq!(steer_velocity(0, Steer::Up, 16_000), -249_600);
    assert_eq!(steer_velocity(0, Steer::Down, 16_000), 249_600);
    assert_eq!(steer_velocity(-300_000, Steer::Up, 16_000), -309_600);
    assert_eq!(steer_velocity(300_000, Steer::Up, 16_000), -249_600);
}

#[test]
fn idle_paddle_keeps_friction_share() {
    assert_eq!(steer_velocity(100_000, Steer::Idle, 16_000), 85_000);
    assert_eq!(steer_velocity(-100_000, Steer::Idle, 16_000), -85_000);
}

#[test]
fn up_key_wins_over_down_key() {
    assert_eq!(Steer::from_keys(true, true), Steer::Up);
    assert_eq!(Steer::from_keys(false, true), Steer::Down);
    assert_eq!(Steer::from_keys(false, false), Steer::Idle);
}

#[test]
fn paddle_velocity_is_capped() {
    let v = steer_velocity(MAX_PADDLE_SPEED, Steer::Down, 1_000_000);
    assert_eq!(v, 1_020_000);
    let (y, vel) = move_paddle(100_000, v, 16_000);
    assert_eq!(vel, MAX_PADDLE_SPEED);
    assert_eq!(y, 100_000 + 6_720);
    let (_, vel) = move_paddle(100_000, -5_000_000, 16_000);
    assert_eq!(vel, -MAX_PADDLE_SPEED);
}

#[test]
fn paddle_stops_dead_at_top_wall() {
    let (y, vel) = move_paddle(1_000, -MAX_PADDLE_SPEED, 16_000);
    assert_eq!(y, 0);
    assert_eq!(vel, 0);
}

#[test]
fn paddle_stops_dead_at_bottom_wall() {
    let (y, vel) = move_paddle(PADDLE_MAX_Y - 1_000, MAX_PADDLE_SPEED, 16_000);
    assert_eq!(y, PADDLE_MAX_Y);
    assert_eq!(vel, 0);
}

#[test]
fn paddle_moves_freely_inside_arena() {
    let (y, vel) = move_paddle(250_000, 240_000, 10_000);
    assert_eq!(y, 252_400);
    assert_eq!(vel, 240_000);
}

#[test]
fn opponent_predicts_damped_look_ahead() {
    assert_eq!(predict_ball_y(400_000, 300_000, 250_000, 100_000), 340_200);
    assert_eq!(predict_ball_y(400_000, 300_000, -250_000, 100_000), 300_000);
    assert_eq!(predict_ball_y(400_000, 300_000, 0, 100_000), 300_000);
}

#[test]
fn opponent_chases_or_settles() {
    assert_eq!(ai_steer(250_000, 0, 350_000), 210_000);
    assert_eq!(ai_steer(250_000, 0, 250_000), -210_000);
    assert_eq!(ai_steer(250_000, 100_000, 305_000), 90_000);
    assert_eq!(ai_steer(250_000, 100_000, 310_000), 90_000);
    assert_eq!(ai_steer(250_000, 100_000, 310_001), 210_000);
}

#[test]
fn ball_drifts_by_velocity_times_time() {
    assert_eq!(drift(0, -250_000, 16_000), -4_000);
    assert_eq!(drift(400_000, 250_000, 1_000_000), 650_000);
}

#[test]
fn ball_reflects_at_bottom_wall() {
    let (y, vel) = bounce_off_walls(SCREEN_HEIGHT - BALL_SIZE + 1_000, 100_000);
    assert_eq!(vel, -100_000);
    assert!(y <= SCREEN_HEIGHT - BALL_SIZE);
    assert_eq!(y, SCREEN_HEIGHT - BALL_SIZE);
}

#[test]
fn ball_reflects_at_top_wall() {
    let (y, vel) = bounce_off_walls(BALL_SIZE - 3_000, -80_000);
    assert_eq!(vel, 80_000);
    assert_eq!(y, BALL_SIZE);
}

#[test]
fn ball_inside_field_is_untouched() {
    assert_eq!(bounce_off_walls(300_000, 42_000), (300_000, 42_000));
}

#[test]
fn paddle_hits_need_overlap_and_approach() {
    assert!(left_paddle_hit(70_000, 300_000, -250_000, 250_000));
    assert!(!left_paddle_hit(70_000, 300_000, 250_000, 250_000));
    assert!(!left_paddle_hit(90_000, 300_000, -250_000, 250_000));
    assert!(!left_paddle_hit(70_000, 500_000, -250_000, 250_000));
    assert!(right_paddle_hit(730_000, 300_000, 250_000, 250_000));
    assert!(!right_paddle_hit(730_000, 300_000, -250_000, 250_000));
    assert!(!right_paddle_hit(700_000, 300_000, 250_000, 250_000));
}

#[test]
fn boost_adds_five_percent_up_to_cap() {
    assert_eq!(boost_speed(BALL_SPEED), 262_500);
    assert_eq!(boost_speed(262_500), 275_625);
    assert_eq!(boost_speed(490_000), MAX_BALL_SPEED);
    assert_eq!(boost_speed(MAX_BALL_SPEED), MAX_BALL_SPEED);
}

#[test]
fn top_edge_hit_leaves_at_minus_one_and_a_quarter_speed() {
    assert_eq!(deflect(BALL_SPEED, 200_000, 200_000, 0), -312_500);
    assert_eq!(deflect(262_500, 100_000, 100_000, 0), -328_125);
}

#[test]
fn bottom_edge_and_centre_hits() {
    assert_eq!(deflect(BALL_SPEED, 300_000, 200_000, 0), 312_500);
    assert_eq!(deflect(BALL_SPEED, 250_000, 200_000, 0), 0);
}

#[test]
fn moving_paddle_adds_spin() {
    assert_eq!(deflect(BALL_SPEED, 250_000, 200_000, MAX_PADDLE_SPEED), 42_000);
    assert_eq!(deflect(BALL_SPEED, 250_000, 200_000, -240_000), -24_000);
}

#[test]
fn particle_moves_falls_and_ages() {
    let mut p = Particle::new(0, 0, 100_000, 0, 500_000, 3_000);
    assert_eq!(p.max_life, 500_000);
    assert!(p.update(100_000));
    assert_eq!(p.x, 10_000);
    assert_eq!(p.y, 0);
    assert_eq!(p.vel_y, 30_000);
    assert_eq!(p.life, 400_000);
    assert!(p.update(100_000));
    assert_eq!(p.y, 3_000);
    assert!(!p.update(400_000));
}

#[test]
fn dead_particles_are_dropped() {
    let mut ps = vec![
        Particle::new(0, 0, 0, 0, 300_000, 2_000),
        Particle::new(5, 5, 0, 0, 800_000, 2_000),
        Particle::new(9, 9, 0, 0, 100_000, 2_000),
    ];
    update_particles(&mut ps, 300_000);
    assert_eq!(ps.len(), 1);
    assert_eq!(ps[0].x, 5);
    assert_eq!(ps[0].life, 500_000);
}

#[test]
fn burst_adds_one_particle_per_spark() {
    let sparks = vec![Spark { push: 60_000, vel_y: -10_000, life: 400_000, size: 3_000 }; 8];
    let mut ps = Vec::new();
    spawn_burst(&mut ps, 735_000, 300_000, -1, &sparks);
    assert_eq!(ps.len(), 8);
    assert_eq!(ps[0].vel_x, -60_000);
    assert_eq!(ps[0].x, 735_000);
    assert_eq!(ps[0].max_life, 400_000);
    spawn_burst(&mut ps, 65_000, 300_000, 1, &sparks);
    assert_eq!(ps.len(), 16);
    assert_eq!(ps[15].vel_x, 60_000);
}

#[test]
fn rolls_stay_in_their_ranges_and_vary() {
    let mut errors = Vec::new();
    for _ in 0..50 {
        let r = roll_frame();
        assert!(-10_000 <= r.ai_error && r.ai_error <= 10_000);
        assert_eq!(r.sparks.len(), 8);
        for s in &r.sparks {
            assert!(50_000 <= s.push && s.push <= 200_000);
            assert!(-100_000 <= s.vel_y && s.vel_y <= 100_000);
            assert!(300_000 <= s.life && s.life <= 800_000);
            assert!(2_000 <= s.size && s.size <= 5_000);
        }
        errors.push(r.ai_error);
    }
    assert!(errors.iter().any(|e| *e != errors[0]));
}
