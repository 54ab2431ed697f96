//! A fixed-timestep Pong simulation: paddle motion, a computer opponent, ball
//! physics with scoring, particles, and the menu / play / pause / game-over
//! state machine. Drawing, input polling and the clock stay with the caller.
pub mod arith;
pub mod ball;
pub mod constants;
pub mod game;
pub mod lemmas;
pub mod paddle;
pub mod particle;
pub mod random;
pub mod sim;
