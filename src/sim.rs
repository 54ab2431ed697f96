//! The simulation state of a match and its per-frame physics.
use vstd::prelude::*;
use crate::ball::{
    boost_speed, boosted, bounce_off_walls, deflect, deflected_vel_y, drift, drifted,
    hits_left_paddle, hits_right_paddle, left_paddle_hit, right_paddle_hit, wall_bounced,
};
use crate::constants::{
    BALL_SIZE, BALL_SPEED, BALL_START_X, BALL_START_Y, MAX_BALL_SPEED, MAX_PADDLE_SPEED,
    OPENING_VEL_Y, PADDLE_MAX_Y, PADDLE_START_Y, REACH_LIMIT, SERVE_VEL_Y, SCREEN_HEIGHT, SCREEN_WIDTH, WINNING_SCORE,
};
use crate::paddle::{
    ai_steer, ai_velocity, move_paddle, paddle_travel, predict_ball_y, predicted_ball_y,
    steer_velocity, steered_velocity, Steer,
};

verus! {

/// Bound on the ball's vertical speed.
pub const MAX_BALL_VEL_Y: i64 = 1_000_000;

/// Who controls the right paddle.
#[derive(Clone, Copy, Debug, PartialEq, Eq, Structural)]
pub enum GameMode {
    TwoPlayer,
    VsAI,
}

/// The side that won a point this frame, if any.
#[derive(Clone, Copy, Debug, PartialEq, Eq, Structural)]
pub enum Point {
    Nobody,
    Left,
    Right,
}

/// Paddles, ball, ball speed and scores.
#[derive(Clone, Copy, Debug, PartialEq, Eq, Structural)]
pub struct Simulation {
    /// Top of the left paddle.
    pub left_paddle_y: i64,
    /// Top of the right paddle.
    pub right_paddle_y: i64,
    pub left_paddle_vel: i64,
    pub right_paddle_vel: i64,
    pub ball_x: i64,
    pub ball_y: i64,
    pub ball_vel_x: i64,
    pub ball_vel_y: i64,
    /// Speed of the current rally; grows with each paddle hit.
    pub current_ball_speed: i64,
    pub left_score: u32,
    pub right_score: u32,
}

/// A paddle in the arena, no faster than the cap, and at rest against a wall.
pub open spec fn paddle_ok(y: int, vel: int) -> bool {
    &&& 0 <= y <= PADDLE_MAX_Y
    &&& -MAX_PADDLE_SPEED <= vel <= MAX_PADDLE_SPEED
    &&& (y == 0 || y == PADDLE_MAX_Y ==> vel == 0)
}

/// The ball at the start of a match.
pub open spec fn opening() -> Simulation {
    Simulation {
        left_paddle_y: PADDLE_START_Y,
        right_paddle_y: PADDLE_START_Y,
        left_paddle_vel: 0,
        right_paddle_vel: 0,
        ball_x: BALL_START_X,
        ball_y: BALL_START_Y,
        ball_vel_x: BALL_SPEED,
        ball_vel_y: OPENING_VEL_Y,
        current_ball_speed: BALL_SPEED,
        left_score: 0,
        right_score: 0,
    }
}

/// A fresh match after a restart: like the opening, but with the steeper serve
/// that follows a point.
pub open spec fn restarted() -> Simulation {
    Simulation { ball_vel_y: SERVE_VEL_Y, ..opening() }
}

/// The paddles after their requests: the left one by its keys, the right one
/// by its keys or by the opponent aiming at the predicted ball plus `ai_error`.
pub open spec fn steered(
    s: Simulation,
    left: Steer,
    right: Steer,
    mode: GameMode,
    ai_error: int,
    dt: int,
) -> Simulation {
    let lv = steered_velocity(s.left_paddle_vel as int, left, dt);
    let rv = match mode {
        GameMode::TwoPlayer => steered_velocity(s.right_paddle_vel as int, right, dt),
        GameMode::VsAI => ai_velocity(
            s.right_paddle_y as int,
            s.right_paddle_vel as int,
            predicted_ball_y(s.ball_x as int, s.ball_y as int, s.ball_vel_x as int, s.ball_vel_y as int) + ai_error,
        ),
    };
    let l = paddle_travel(s.left_paddle_y as int, lv, dt);
    let r = paddle_travel(s.right_paddle_y as int, rv, dt);
    Simulation {
        left_paddle_y: l.0 as i64,
        left_paddle_vel: l.1 as i64,
        right_paddle_y: r.0 as i64,
        right_paddle_vel: r.1 as i64,
        ..s
    }
}

/// The ball after flying for `dt` microseconds and bouncing off the walls.
pub open spec fn flown(s: Simulation, dt: int) -> Simulation {
    let w = wall_bounced(drifted(s.ball_y as int, s.ball_vel_y as int, dt), s.ball_vel_y as int);
    Simulation {
        ball_x: drifted(s.ball_x as int, s.ball_vel_x as int, dt) as i64,
        ball_y: w.0 as i64,
        ball_vel_y: w.1 as i64,
        ..s
    }
}

impl Simulation {
    /// The left paddle returns the ball this frame.
    pub open spec fn left_hit(self) -> bool {
        hits_left_paddle(self.ball_x as int, self.ball_y as int, self.ball_vel_x as int, self.left_paddle_y as int)
    }

    /// The right paddle returns the ball this frame.
    pub open spec fn right_hit(self) -> bool {
        hits_right_paddle(self.ball_x as int, self.ball_y as int, self.ball_vel_x as int, self.right_paddle_y as int)
    }

    /// The side that wins a point with the ball where it is.
    pub open spec fn point(self) -> Point {
        if self.ball_x < -BALL_SIZE {
            Point::Right
        } else if self.ball_x > SCREEN_WIDTH + BALL_SIZE {
            Point::Left
        } else {
            Point::Nobody
        }
    }
}

/// After a left return: faster, heading right, at an angle set by where it met the paddle.
pub open spec fn left_returned(s: Simulation) -> Simulation {
    if s.left_hit() {
        let speed = boosted(s.current_ball_speed as int);
        Simulation {
            current_ball_speed: speed as i64,
            ball_vel_x: speed as i64,
            ball_vel_y: deflected_vel_y(speed, s.ball_y as int, s.left_paddle_y as int, s.left_paddle_vel as int) as i64,
            ..s
        }
    } else {
        s
    }
}

/// After a right return: faster, heading left, at an angle set by where it met the paddle.
pub open spec fn right_returned(s: Simulation) -> Simulation {
    if s.right_hit() {
        let speed = boosted(s.current_ball_speed as int);
        Simulation {
            current_ball_speed: speed as i64,
            ball_vel_x: -speed as i64,
            ball_vel_y: deflected_vel_y(speed, s.ball_y as int, s.right_paddle_y as int, s.right_paddle_vel as int) as i64,
            ..s
        }
    } else {
        s
    }
}

/// After a point: the winner's score goes up and the ball is served from the
/// centre at base speed toward the side that won.
pub open spec fn scored(s: Simulation) -> Simulation {
    let serve = Simulation {
        ball_x: BALL_START_X,
        ball_y: BALL_START_Y,
        ball_vel_y: SERVE_VEL_Y,
        current_ball_speed: BALL_SPEED,
        ..s
    };
    match s.point() {
        Point::Right => Simulation { right_score: (s.right_score + 1) as u32, ball_vel_x: BALL_SPEED, ..serve },
        Point::Left => Simulation { left_score: (s.left_score + 1) as u32, ball_vel_x: (-BALL_SPEED) as i64, ..serve },
        Point::Nobody => s,
    }
}

impl Simulation {
    /// Shared by every state of a match: paddles at rest or in the arena, ball
    /// speed within its bounds, scores no higher than the winning score.
    pub open spec fn settled(self) -> bool {
        &&& paddle_ok(self.left_paddle_y as int, self.left_paddle_vel as int)
        &&& paddle_ok(self.right_paddle_y as int, self.right_paddle_vel as int)
        &&& -MAX_BALL_SPEED <= self.ball_vel_x <= MAX_BALL_SPEED
        &&& -MAX_BALL_VEL_Y <= self.ball_vel_y <= MAX_BALL_VEL_Y
        &&& BALL_SPEED <= self.current_ball_speed <= MAX_BALL_SPEED
        &&& self.left_score <= WINNING_SCORE
        &&& self.right_score <= WINNING_SCORE
    }

    /// The state between frames: the ball is inside the field.
    pub open spec fn wf(self) -> bool {
        &&& self.settled()
        &&& -BALL_SIZE <= self.ball_x <= SCREEN_WIDTH + BALL_SIZE
        &&& BALL_SIZE <= self.ball_y <= SCREEN_HEIGHT - BALL_SIZE
    }

    /// The state within a frame, after the ball has moved and before points are
    /// settled: the ball may be outside the field.
    pub open spec fn in_flight(self) -> bool {
        &&& self.settled()
        &&& -REACH_LIMIT <= self.ball_x <= REACH_LIMIT
        &&& BALL_SIZE <= self.ball_y <= SCREEN_HEIGHT - BALL_SIZE
    }

    /// The opening position of a match.
    pub fn new() -> (r: Simulation)
        ensures
            r == opening(),
            r.wf(),
    {
        Simulation {
            left_paddle_y: PADDLE_START_Y,
            right_paddle_y: PADDLE_START_Y,
            left_paddle_vel: 0,
            right_paddle_vel: 0,
            ball_x: BALL_START_X,
            ball_y: BALL_START_Y,
            ball_vel_x: BALL_SPEED,
            ball_vel_y: OPENING_VEL_Y,
            current_ball_speed: BALL_SPEED,
            left_score: 0,
            right_score: 0,
        }
    }

    /// A fresh match after a restart.
    pub fn restart() -> (r: Simulation)
        ensures
            r == restarted(),
            r.wf(),
    {
        Simulation { ball_vel_y: SERVE_VEL_Y, ..Simulation::new() }
    }

    /// Moves both paddles for `dt` microseconds.
    pub fn steer_paddles(&mut self, left: Steer, right: Steer, mode: GameMode, ai_error: i64, dt: u32)
        requires
            old(self).wf(),
            -1_000_000_000 <= ai_error <= 1_000_000_000,
        ensures
            *final(self) == steered(*old(self), left, right, mode, ai_error as int, dt as int),
            final(self).wf(),
    {
        let lv = steer_velocity(self.left_paddle_vel, left, dt);
        let rv = match mode {
            GameMode::TwoPlayer => steer_velocity(self.right_paddle_vel, right, dt),
            GameMode::VsAI => {
                let predicted = predict_ball_y(self.ball_x, self.ball_y, self.ball_vel_x, self.ball_vel_y);
                ai_steer(self.right_paddle_y, self.right_paddle_vel, predicted + ai_error)
            },
        };
        let l = move_paddle(self.left_paddle_y, lv, dt);
        let r = move_paddle(self.right_paddle_y, rv, dt);
        self.left_paddle_y = l.0;
        self.left_paddle_vel = l.1;
        self.right_paddle_y = r.0;
        self.right_paddle_vel = r.1;
    }

    /// Moves the ball for `dt` microseconds and bounces it off the walls.
    pub fn fly(&mut self, dt: u32)
        requires
            old(self).wf(),
        ensures
            *final(self) == flown(*old(self), dt as int),
            final(self).in_flight(),
    {
        let x = drift(self.ball_x, self.ball_vel_x, dt);
        let y = drift(self.ball_y, self.ball_vel_y, dt);
        let w = bounce_off_walls(y, self.ball_vel_y);
        self.ball_x = x;
        self.ball_y = w.0;
        self.ball_vel_y = w.1;
    }

    /// Returns the ball off the left paddle if it hits; tells whether it did.
    pub fn return_left(&mut self) -> (hit: bool)
        requires
            old(self).in_flight(),
        ensures
            hit == old(self).left_hit(),
            *final(self) == left_returned(*old(self)),
            final(self).in_flight(),
    {
        let hit = left_paddle_hit(self.ball_x, self.ball_y, self.ball_vel_x, self.left_paddle_y);
        if hit {
            let speed = boost_speed(self.current_ball_speed);
            self.current_ball_speed = speed;
            self.ball_vel_x = speed;
            self.ball_vel_y = deflect(speed, self.ball_y, self.left_paddle_y, self.left_paddle_vel);
        }
        hit
    }

    /// Returns the ball off the right paddle if it hits; tells whether it did.
    pub fn return_right(&mut self) -> (hit: bool)
        requires
            old(self).in_flight(),
        ensures
            hit == old(self).right_hit(),
            *final(self) == right_returned(*old(self)),
            final(self).in_flight(),
    {
        let hit = right_paddle_hit(self.ball_x, self.ball_y, self.ball_vel_x, self.right_paddle_y);
        if hit {
            let speed = boost_speed(self.current_ball_speed);
            self.current_ball_speed = speed;
            self.ball_vel_x = -speed;
            self.ball_vel_y = deflect(speed, self.ball_y, self.right_paddle_y, self.right_paddle_vel);
        }
        hit
    }

    /// Settles a point if the ball has left the field; tells who won it.
    pub fn settle_point(&mut self) -> (p: Point)
        requires
            old(self).in_flight(),
            old(self).left_score < WINNING_SCORE,
            old(self).right_score < WINNING_SCORE,
        ensures
            p == old(self).point(),
            *final(self) == scored(*old(self)),
            final(self).wf(),
    {
        if self.ball_x < -BALL_SIZE {
            self.right_score = self.right_score + 1;
            self.ball_vel_x = BALL_SPEED;
            self.serve();
            Point::Right
        } else if self.ball_x > SCREEN_WIDTH + BALL_SIZE {
            self.left_score = self.left_score + 1;
            self.ball_vel_x = -BALL_SPEED;
            self.serve();
            Point::Left
        } else {
            Point::Nobody
        }
    }

    /// Puts the ball back in the centre at base speed.
    fn serve(&mut self)
        ensures
            *final(self) == (Simulation {
                ball_x: BALL_START_X,
                ball_y: BALL_START_Y,
                ball_vel_y: SERVE_VEL_Y,
                current_ball_speed: BALL_SPEED,
                ..*old(self)
            }),
    {
        self.ball_x = BALL_START_X;
        self.ball_y = BALL_START_Y;
        self.ball_vel_y = SERVE_VEL_Y;
        self.current_ball_speed = BALL_SPEED;
    }
}

} // verus!
