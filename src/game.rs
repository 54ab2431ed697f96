//! The game: menu, mode selection, play, pause and game over, advanced one
//! frame at a time from the keys of that frame and the time since the last one.
use vstd::prelude::*;
use crate::constants::{
    BALL_SPEED, HIT_SHAKE, LEFT_PADDLE_X, PADDLE_WIDTH, RIGHT_PADDLE_X, SCORE_FLASH, SCORE_SHAKE,
    SHAKE_DECAY_RATE, WINNING_SCORE,
};
use crate::lemmas::{lemma_ball_speed_within_rally, lemma_winning_point_ends_match};
use crate::paddle::{steer_of, Steer};
use crate::particle::{sparked, spawn_burst, survivors, update_particles, Particle};
use crate::random::{roll_frame, spark_in_range, FrameRolls, RollsView};
use crate::sim::{
    flown, left_returned, opening, restarted, right_returned, scored, steered, GameMode, Point,
    Simulation,
};

verus! {

#[derive(Clone, Copy, Debug, PartialEq, Eq, Structural)]
pub enum GameState {
    Menu,
    ModeSelect,
    Playing,
    Paused,
    GameOver,
}

/// Screen shake and score flash, each in microseconds left.
#[derive(Clone, Copy, Debug, PartialEq, Eq, Structural)]
pub struct Effects {
    pub screen_shake: i64,
    pub score_flash_timer: i64,
}

/// The keys of one frame. Movement keys tell whether a key is held; the others
/// whether it was pressed during this frame.
#[derive(Clone, Copy, Debug, PartialEq, Eq, Structural)]
pub struct Controls {
    pub left_up: bool,
    pub left_down: bool,
    pub right_up: bool,
    pub right_down: bool,
    pub pause: bool,
    pub confirm: bool,
    pub pick_two_player: bool,
    pub pick_vs_ai: bool,
    pub restart: bool,
    pub change_mode: bool,
    pub cancel: bool,
}

/// A whole game: where the state machine stands, the mode, the match, the
/// effects and the particles on screen.
#[derive(Debug)]
pub struct Game {
    pub state: GameState,
    pub mode: GameMode,
    pub sim: Simulation,
    pub effects: Effects,
    pub particles: Vec<Particle>,
}

/// A game as a value.
pub struct GameView {
    pub state: GameState,
    pub mode: GameMode,
    pub sim: Simulation,
    pub effects: Effects,
    pub particles: Seq<Particle>,
}

impl View for Game {
    type V = GameView;

    open spec fn view(&self) -> GameView {
        GameView {
            state: self.state,
            mode: self.mode,
            sim: self.sim,
            effects: self.effects,
            particles: self.particles@,
        }
    }
}

/// `v - d`, but not below zero.
pub open spec fn run_down(v: int, d: int) -> int {
    if v - d > 0 { v - d } else { 0 }
}

/// The effects after `dt` microseconds: the shake runs out ten times faster
/// than the clock, the flash at its pace.
pub open spec fn faded(e: Effects, dt: int) -> Effects {
    Effects {
        screen_shake: run_down(e.screen_shake as int, SHAKE_DECAY_RATE * dt) as i64,
        score_flash_timer: run_down(e.score_flash_timer as int, dt) as i64,
    }
}

/// One frame of play: paddles, ball, paddle returns with their sparks and
/// shake, points with their flash and shake, the end of the match, then the
/// effects and particles age, and a pause is taken unless the match just ended.
pub open spec fn playing_frame(g: GameView, c: Controls, dt: int, r: RollsView) -> GameView {
    let s1 = steered(g.sim, steer_of(c.left_up, c.left_down), steer_of(c.right_up, c.right_down), g.mode, r.ai_error, dt);
    let s2 = flown(s1, dt);
    let s3 = left_returned(s2);
    let ps1 = if s2.left_hit() {
        sparked(g.particles, LEFT_PADDLE_X + PADDLE_WIDTH, s2.ball_y as int, 1, r.sparks)
    } else {
        g.particles
    };
    let s4 = right_returned(s3);
    let ps2 = if s3.right_hit() {
        sparked(ps1, RIGHT_PADDLE_X as int, s3.ball_y as int, -1, r.sparks)
    } else {
        ps1
    };
    let shake = if s2.left_hit() || s3.right_hit() { HIT_SHAKE } else { g.effects.screen_shake };
    let point = s4.point();
    let s5 = scored(s4);
    let e = if point != Point::Nobody {
        Effects { screen_shake: SCORE_SHAKE, score_flash_timer: SCORE_FLASH }
    } else {
        Effects { screen_shake: shake, ..g.effects }
    };
    let over = s5.left_score >= WINNING_SCORE || s5.right_score >= WINNING_SCORE;
    GameView {
        state: if over { GameState::GameOver } else if c.pause { GameState::Paused } else { GameState::Playing },
        mode: g.mode,
        sim: s5,
        effects: faded(e, dt),
        particles: survivors(ps2, dt),
    }
}

/// A game reset for a new match, landing in `state`.
pub open spec fn reset_to(g: GameView, state: GameState) -> GameView {
    GameView {
        state,
        mode: g.mode,
        sim: restarted(),
        effects: Effects { screen_shake: 0, score_flash_timer: 0 },
        particles: Seq::empty(),
    }
}

/// The game after one frame with keys `c`, `dt` microseconds after the last
/// frame, with the random values `r`.
pub open spec fn next_frame(g: GameView, c: Controls, dt: int, r: RollsView) -> GameView {
    match g.state {
        GameState::Menu => if c.confirm { GameView { state: GameState::ModeSelect, ..g } } else { g },
        GameState::ModeSelect => if c.pick_two_player {
            GameView { mode: GameMode::TwoPlayer, ..g }
        } else if c.pick_vs_ai {
            GameView { mode: GameMode::VsAI, ..g }
        } else if c.confirm {
            GameView { state: GameState::Playing, ..g }
        } else if c.cancel {
            GameView { state: GameState::Menu, ..g }
        } else {
            g
        },
        GameState::Playing => playing_frame(g, c, dt, r),
        GameState::Paused => if c.pause { GameView { state: GameState::Playing, ..g } } else { g },
        GameState::GameOver => if c.restart {
            reset_to(g, GameState::Playing)
        } else if c.change_mode {
            reset_to(g, GameState::ModeSelect)
        } else {
            g
        },
    }
}

impl GameView {
    /// A consistent game: a well-formed match, effects within their lengths,
    /// living particles, and a winning score only once the game is over.
    pub open spec fn wf(self) -> bool {
        &&& self.sim.wf()
        &&& 0 <= self.effects.screen_shake <= SCORE_SHAKE
        &&& 0 <= self.effects.score_flash_timer <= SCORE_FLASH
        &&& forall|i: int| 0 <= i < self.particles.len() ==> (#[trigger] self.particles[i]).wf()
        &&& self.state != GameState::GameOver ==> {
            &&& self.sim.left_score < WINNING_SCORE
            &&& self.sim.right_score < WINNING_SCORE
        }
    }
}

/// The banner of a finished match: which side won, worded for the mode.
pub open spec fn winner_banner(mode: GameMode, left_score: int) -> Seq<char> {
    match mode {
        GameMode::TwoPlayer => if left_score >= WINNING_SCORE { "Left Player Wins!"@ } else { "Right Player Wins!"@ },
        GameMode::VsAI => if left_score >= WINNING_SCORE { "You Win!"@ } else { "AI Wins!"@ },
    }
}

impl Effects {
    /// Lets the effects run down for `dt` microseconds.
    pub fn fade(&mut self, dt: u32)
        requires
            0 <= old(self).screen_shake <= SCORE_SHAKE,
            0 <= old(self).score_flash_timer <= SCORE_FLASH,
        ensures
            *final(self) == faded(*old(self), dt as int),
            0 <= final(self).screen_shake <= SCORE_SHAKE,
            0 <= final(self).score_flash_timer <= SCORE_FLASH,
    {
        let dt = dt as i64;
        let shake: i64 = self.screen_shake - SHAKE_DECAY_RATE * dt;
        self.screen_shake = if shake > 0 { shake } else { 0 };
        let flash: i64 = self.score_flash_timer - dt;
        self.score_flash_timer = if flash > 0 { flash } else { 0 };
    }
}

impl Game {
    /// A new game at the menu, in two-player mode, with the opening position.
    pub fn new() -> (g: Game)
        ensures
            g@ == (GameView {
                state: GameState::Menu,
                mode: GameMode::TwoPlayer,
                sim: opening(),
                effects: Effects { screen_shake: 0, score_flash_timer: 0 },
                particles: Seq::empty(),
            }),
            g@.wf(),
    {
        Game {
            state: GameState::Menu,
            mode: GameMode::TwoPlayer,
            sim: Simulation::new(),
            effects: Effects { screen_shake: 0, score_flash_timer: 0 },
            particles: Vec::new(),
        }
    }

    /// Starts a new match and moves to `state`; the mode stays.
    pub fn reset(&mut self, state: GameState)
        ensures
            final(self)@ == reset_to(old(self)@, state),
    {
        self.sim = Simulation::restart();
        self.effects = Effects { screen_shake: 0, score_flash_timer: 0 };
        self.particles = Vec::new();
        self.state = state;
    }

    /// The banner shown once the match is over.
    pub fn winner_text(&self) -> (r: &'static str)
        ensures
            r@ == winner_banner(self.mode, self.sim.left_score as int),
    {
        let left_won = self.sim.left_score >= WINNING_SCORE;
        match self.mode {
            GameMode::TwoPlayer => if left_won { "Left Player Wins!" } else { "Right Player Wins!" },
            GameMode::VsAI => if left_won { "You Win!" } else { "AI Wins!" },
        }
    }

    /// One frame of play.
    fn play(&mut self, c: Controls, dt: u32, r: &FrameRolls)
        requires
            old(self)@.wf(),
            old(self).state == GameState::Playing,
            r@.wf(),
        ensures
            final(self)@ == playing_frame(old(self)@, c, dt as int, r@),
            final(self)@.wf(),
    {
        assert forall|i: int| 0 <= i < r.sparks@.len() implies (#[trigger] r.sparks@[i]).wf() by {
            assert(spark_in_range(r.sparks@[i]));
        }
        let left = Steer::from_keys(c.left_up, c.left_down);
        let right = Steer::from_keys(c.right_up, c.right_down);
        self.sim.steer_paddles(left, right, self.mode, r.ai_error, dt);
        self.sim.fly(dt);
        let left_hit = self.sim.return_left();
        if left_hit {
            spawn_burst(&mut self.particles, LEFT_PADDLE_X + PADDLE_WIDTH, self.sim.ball_y, 1, &r.sparks);
        }
        let right_hit = self.sim.return_right();
        if right_hit {
            spawn_burst(&mut self.particles, RIGHT_PADDLE_X, self.sim.ball_y, -1, &r.sparks);
        }
        if left_hit || right_hit {
            self.effects.screen_shake = HIT_SHAKE;
        }
        let point = self.sim.settle_point();
        if point != Point::Nobody {
            self.effects.screen_shake = SCORE_SHAKE;
            self.effects.score_flash_timer = SCORE_FLASH;
        }
        self.effects.fade(dt);
        update_particles(&mut self.particles, dt);
        if self.sim.left_score >= WINNING_SCORE || self.sim.right_score >= WINNING_SCORE {
            self.state = GameState::GameOver;
        } else if c.pause {
            self.state = GameState::Paused;
        }
    }

    /// Advances the game by one frame, given the random values of the frame;
    /// tells whether the game goes on, which it does unless cancel was pressed.
    pub fn frame_with(&mut self, c: Controls, dt: u32, r: &FrameRolls) -> (running: bool)
        requires
            old(self)@.wf(),
            r@.wf(),
        ensures
            final(self)@ == next_frame(old(self)@, c, dt as int, r@),
            final(self)@.wf(),
            running == !c.cancel,
            old(self).state == GameState::Playing ==> {
                &&& (final(self).state == GameState::GameOver) == (final(self).sim.left_score
                    >= WINNING_SCORE || final(self).sim.right_score >= WINNING_SCORE)
                &&& (final(self).sim.left_score == old(self).sim.left_score
                    && final(self).sim.right_score == old(self).sim.right_score)
                    ==> final(self).sim.current_ball_speed >= old(self).sim.current_ball_speed
                &&& (final(self).sim.left_score != old(self).sim.left_score
                    || final(self).sim.right_score != old(self).sim.right_score)
                    ==> final(self).sim.current_ball_speed == BALL_SPEED
            },
    {
        proof {
            if self.state == GameState::Playing {
                lemma_ball_speed_within_rally(self@, c, dt as int, r@);
                lemma_winning_point_ends_match(self@, c, dt as int, r@);
            }
        }
        match self.state {
            GameState::Menu => {
                if c.confirm {
                    self.state = GameState::ModeSelect;
                }
            },
            GameState::ModeSelect => {
                if c.pick_two_player {
                    self.mode = GameMode::TwoPlayer;
                } else if c.pick_vs_ai {
                    self.mode = GameMode::VsAI;
                } else if c.confirm {
                    self.state = GameState::Playing;
                } else if c.cancel {
                    self.state = GameState::Menu;
                }
            },
            GameState::Playing => self.play(c, dt, r),
            GameState::Paused => {
                if c.pause {
                    self.state = GameState::Playing;
                }
            },
            GameState::GameOver => {
                if c.restart {
                    self.reset(GameState::Playing);
                } else if c.change_mode {
                    self.reset(GameState::ModeSelect);
                }
            },
        }
        !c.cancel
    }

    /// Advances the game by one frame, drawing the random values it needs.
    pub fn frame(&mut self, c: Controls, dt: u32) -> (running: bool)
        requires
            old(self)@.wf(),
        ensures
            exists|r: RollsView| r.wf() && final(self)@ == next_frame(old(self)@, c, dt as int, r),
            final(self)@.wf(),
            running == !c.cancel,
    {
        let rolls = roll_frame();
        let running = self.frame_with(c, dt, &rolls);
        assert(rolls@.wf());
        running
    }
}

} // verus!
