//! Random draws for one frame: the opponent's aiming error and the sparks of a
//! paddle hit.
use vstd::prelude::*;
use crate::constants::{AI_ERROR, SPARKS_PER_HIT};
use crate::particle::Spark;

verus! {

/// Relies on macroquad::rand::gen_range (quad-rand's global generator): for an
/// integer type it computes `low + (high - low) * r` in `f64` for a draw `r` in
/// `[0, 1)` and truncates it toward zero, which lands in `[low, high]` for
/// bounds this small.
#[verifier::external_body]
fn random_in(low: i64, high: i64) -> (r: i64)
    requires
        -1_000_000_000 <= low < high <= 1_000_000_000,
    ensures
        low <= r <= high,
{
    macroquad::rand::gen_range(low, high)
}

/// The random values one frame may need.
#[derive(Debug)]
pub struct FrameRolls {
    /// Added to the opponent's predicted target.
    pub ai_error: i64,
    /// Particles for a paddle hit, should one happen.
    pub sparks: Vec<Spark>,
}

/// What the rolls of a frame hold, as values.
pub struct RollsView {
    pub ai_error: int,
    pub sparks: Seq<Spark>,
}

impl View for FrameRolls {
    type V = RollsView;

    open spec fn view(&self) -> RollsView {
        RollsView { ai_error: self.ai_error as int, sparks: self.sparks@ }
    }
}

impl RollsView {
    /// Rolls that the game can use: a bounded aiming error and one burst of
    /// sparks, each within the ranges that `roll_spark` draws from.
    pub open spec fn wf(self) -> bool {
        &&& -AI_ERROR <= self.ai_error <= AI_ERROR
        &&& self.sparks.len() == SPARKS_PER_HIT
        &&& forall|i: int| 0 <= i < self.sparks.len() ==> spark_in_range(#[trigger] self.sparks[i])
    }
}

/// A spark 50 to 200 px/s away from the paddle, up to 100 px/s up or down,
/// with a life of 0.3 to 0.8 s and a size of 2 to 5 px.
pub open spec fn spark_in_range(s: Spark) -> bool {
    &&& 50_000 <= s.push <= 200_000
    &&& -100_000 <= s.vel_y <= 100_000
    &&& 300_000 <= s.life <= 800_000
    &&& 2000 <= s.size <= 5000
}

/// One spark: 50 to 200 px/s away from the paddle, up to 100 px/s up or down,
/// a life of 0.3 to 0.8 s and a size of 2 to 5 px.
pub fn roll_spark() -> (s: Spark)
    ensures
        s.wf(),
        spark_in_range(s),
        50_000 <= s.push <= 200_000,
        -100_000 <= s.vel_y <= 100_000,
        300_000 <= s.life <= 800_000,
        2000 <= s.size <= 5000,
{
    let push = random_in(50_000, 200_000);
    let vel_y = random_in(-100_000, 100_000);
    let life = random_in(300_000, 800_000);
    let size = random_in(2000, 5000);
    Spark { push, vel_y, life, size }
}

/// Draws everything one frame may need.
pub fn roll_frame() -> (r: FrameRolls)
    ensures
        r@.wf(),
        r.sparks@.len() == SPARKS_PER_HIT,
{
    let ai_error = random_in(-AI_ERROR, AI_ERROR);
    let mut sparks: Vec<Spark> = Vec::new();
    let mut i: usize = 0;
    while i < SPARKS_PER_HIT
        invariant
            i <= SPARKS_PER_HIT,
            sparks@.len() == i,
            forall|j: int| 0 <= j < sparks@.len() ==> spark_in_range(#[trigger] sparks@[j]),
        decreases SPARKS_PER_HIT - i,
    {
        sparks.push(roll_spark());
        i = i + 1;
    }
    FrameRolls { ai_error, sparks }
}

} // verus!
