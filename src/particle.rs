//! Short-lived decorative particles: they drift, fall and fade out.
use vstd::prelude::*;
use crate::arith::{lemma_scaled_bound, scale};
use crate::ball::drifted;
use crate::constants::{
    MAX_PARTICLE_LIFE, MAX_PARTICLE_SPEED, MICROS_PER_SECOND, PARTICLE_GRAVITY, POSITION_LIMIT,
};

verus! {

#[derive(Clone, Copy, Debug, PartialEq, Eq, Structural)]
pub struct Particle {
    pub x: i64,
    pub y: i64,
    pub vel_x: i64,
    pub vel_y: i64,
    /// Microseconds left to live.
    pub life: i64,
    /// Life the particle started with.
    pub max_life: i64,
    pub size: i64,
}

/// The random draws behind one particle of a burst.
#[derive(Clone, Copy, Debug, PartialEq, Eq, Structural)]
pub struct Spark {
    /// Horizontal speed away from the paddle.
    pub push: i64,
    pub vel_y: i64,
    pub life: i64,
    pub size: i64,
}

impl Spark {
    pub open spec fn wf(self) -> bool {
        &&& 0 <= self.push <= MAX_PARTICLE_SPEED
        &&& -MAX_PARTICLE_SPEED <= self.vel_y <= MAX_PARTICLE_SPEED
        &&& 0 < self.life <= MAX_PARTICLE_LIFE
    }
}

/// The particle a spark becomes at `(x, y)`, thrown toward `dir` (1 right, -1 left).
pub open spec fn spark_particle(x: int, y: int, dir: int, s: Spark) -> Particle {
    Particle {
        x: x as i64,
        y: y as i64,
        vel_x: (dir * s.push) as i64,
        vel_y: s.vel_y,
        life: s.life,
        max_life: s.life,
        size: s.size,
    }
}

/// A particle list after a burst of sparks at `(x, y)`.
pub open spec fn sparked(ps: Seq<Particle>, x: int, y: int, dir: int, sparks: Seq<Spark>) -> Seq<Particle> {
    ps + sparks.map_values(|s: Spark| spark_particle(x, y, dir, s))
}

/// Particles that survive `dt` microseconds, each advanced, in their order.
pub open spec fn survivors(ps: Seq<Particle>, dt: int) -> Seq<Particle>
    decreases ps.len(),
{
    if ps.len() == 0 {
        Seq::empty()
    } else {
        let rest = survivors(ps.drop_last(), dt);
        let p = ps.last().advanced(dt);
        if p.life > 0 {
            rest.push(p)
        } else {
            rest
        }
    }
}

impl Particle {
    /// A living particle: its age bounds how far gravity has sped it up and how
    /// far it has gone.
    pub open spec fn wf(self) -> bool {
        let age = self.max_life - self.life;
        &&& 0 < self.life <= self.max_life <= MAX_PARTICLE_LIFE
        &&& -MAX_PARTICLE_SPEED <= self.vel_x <= MAX_PARTICLE_SPEED
        &&& -MAX_PARTICLE_SPEED - age <= self.vel_y <= MAX_PARTICLE_SPEED + age
        &&& -POSITION_LIMIT - 2 * age <= self.x <= POSITION_LIMIT + 2 * age
        &&& -POSITION_LIMIT - 2 * age <= self.y <= POSITION_LIMIT + 2 * age
    }

    /// The particle `dt` microseconds later: it moves, ages, and falls faster.
    pub open spec fn advanced(self, dt: int) -> Particle {
        Particle {
            x: drifted(self.x as int, self.vel_x as int, dt) as i64,
            y: drifted(self.y as int, self.vel_y as int, dt) as i64,
            life: (self.life - dt) as i64,
            vel_y: (self.vel_y + PARTICLE_GRAVITY * dt / MICROS_PER_SECOND as int) as i64,
            ..self
        }
    }

    /// A particle with its full life ahead.
    pub fn new(x: i64, y: i64, vel_x: i64, vel_y: i64, life: i64, size: i64) -> (r: Particle)
        ensures
            r == (Particle { x, y, vel_x, vel_y, life, max_life: life, size }),
    {
        Particle { x, y, vel_x, vel_y, life, max_life: life, size }
    }

    /// Advances the particle by `dt` microseconds; tells whether it still lives.
    pub fn update(&mut self, dt: u32) -> (alive: bool)
        requires
            old(self).wf(),
        ensures
            *final(self) == old(self).advanced(dt as int),
            alive == (final(self).life > 0),
            alive ==> final(self).wf(),
    {
        let dt = dt as i64;
        let age = self.max_life - self.life;
        let reach: i64 = MAX_PARTICLE_SPEED + age;
        assert(-reach * 0x1_0000_0000 <= self.vel_y * dt <= reach * 0x1_0000_0000) by (nonlinear_arith)
            requires -reach <= self.vel_y <= reach, 0 <= dt < 0x1_0000_0000, reach >= 0;
        assert(-reach * 0x1_0000_0000 <= self.vel_x * dt <= reach * 0x1_0000_0000) by (nonlinear_arith)
            requires -reach <= self.vel_x <= reach, 0 <= dt < 0x1_0000_0000, reach >= 0;
        let dx = scale(self.vel_x, dt, MICROS_PER_SECOND);
        let dy = scale(self.vel_y, dt, MICROS_PER_SECOND);
        proof {
            lemma_scaled_bound(self.vel_x as int, dt as int, MICROS_PER_SECOND as int, 2 * MAX_PARTICLE_SPEED);
            lemma_scaled_bound(self.vel_y as int, dt as int, MICROS_PER_SECOND as int, 2 * MAX_PARTICLE_SPEED);
            assert((2 * MAX_PARTICLE_SPEED) * dt / (MICROS_PER_SECOND as int) == 2 * dt) by {
                assert((2 * MAX_PARTICLE_SPEED) * dt == (2 * dt) * MICROS_PER_SECOND);
                vstd::arithmetic::div_mod::lemma_div_by_multiple(2 * dt, MICROS_PER_SECOND as int);
            }
        }
        self.x = self.x + dx;
        self.y = self.y + dy;
        self.life = self.life - dt;
        let fall: i64 = PARTICLE_GRAVITY * dt / MICROS_PER_SECOND;
        proof {
            assert(PARTICLE_GRAVITY * dt <= MICROS_PER_SECOND * dt) by (nonlinear_arith)
                requires 0 <= dt;
            vstd::arithmetic::div_mod::lemma_div_is_ordered(PARTICLE_GRAVITY * dt, MICROS_PER_SECOND * dt, MICROS_PER_SECOND as int);
            vstd::arithmetic::div_mod::lemma_div_by_multiple(dt as int, MICROS_PER_SECOND as int);
            assert(MICROS_PER_SECOND * dt == dt * MICROS_PER_SECOND) by (nonlinear_arith);
            vstd::arithmetic::div_mod::lemma_div_pos_is_pos(PARTICLE_GRAVITY * dt, MICROS_PER_SECOND as int);
        }
        self.vel_y = self.vel_y + fall;
        self.life > 0
    }
}

/// Advances every particle by `dt` microseconds and drops those whose life ran out.
pub fn update_particles(ps: &mut Vec<Particle>, dt: u32)
    requires
        forall|i: int| 0 <= i < old(ps)@.len() ==> (#[trigger] old(ps)@[i]).wf(),
    ensures
        final(ps)@ == survivors(old(ps)@, dt as int),
        forall|i: int| 0 <= i < final(ps)@.len() ==> (#[trigger] final(ps)@[i]).wf(),
{
    let mut kept: Vec<Particle> = Vec::new();
    let n = ps.len();
    let mut i: usize = 0;
    while i < n
        invariant
            n == ps@.len(),
            0 <= i <= n,
            forall|j: int| 0 <= j < ps@.len() ==> (#[trigger] ps@[j]).wf(),
            kept@ == survivors(ps@.subrange(0, i as int), dt as int),
            forall|j: int| 0 <= j < kept@.len() ==> (#[trigger] kept@[j]).wf(),
        decreases n - i,
    {
        let mut p = ps[i];
        let alive = p.update(dt);
        proof {
            assert(ps@.subrange(0, i + 1).drop_last() =~= ps@.subrange(0, i as int));
            assert(ps@.subrange(0, i + 1).last() == ps@[i as int]);
        }
        if alive {
            kept.push(p);
        }
        i = i + 1;
    }
    assert(ps@.subrange(0, n as int) =~= ps@);
    *ps = kept;
}

/// Adds one particle per spark at `(x, y)`, thrown toward `dir`.
pub fn spawn_burst(ps: &mut Vec<Particle>, x: i64, y: i64, dir: i64, sparks: &Vec<Spark>)
    requires
        dir == 1 || dir == -1,
        -POSITION_LIMIT <= x <= POSITION_LIMIT,
        -POSITION_LIMIT <= y <= POSITION_LIMIT,
        forall|i: int| 0 <= i < old(ps)@.len() ==> (#[trigger] old(ps)@[i]).wf(),
        forall|i: int| 0 <= i < sparks@.len() ==> (#[trigger] sparks@[i]).wf(),
    ensures
        final(ps)@ == sparked(old(ps)@, x as int, y as int, dir as int, sparks@),
        forall|i: int| 0 <= i < final(ps)@.len() ==> (#[trigger] final(ps)@[i]).wf(),
{
    let ghost start = ps@;
    let mut i: usize = 0;
    while i < sparks.len()
        invariant
            0 <= i <= sparks@.len(),
            dir == 1 || dir == -1,
            -POSITION_LIMIT <= x <= POSITION_LIMIT,
            -POSITION_LIMIT <= y <= POSITION_LIMIT,
            forall|j: int| 0 <= j < sparks@.len() ==> (#[trigger] sparks@[j]).wf(),
            ps@ == sparked(start, x as int, y as int, dir as int, sparks@.subrange(0, i as int)),
            forall|j: int| 0 <= j < ps@.len() ==> (#[trigger] ps@[j]).wf(),
        decreases sparks@.len() - i,
    {
        let s = sparks[i];
        let vel_x: i64 = if dir > 0 { s.push } else { -s.push };
        let p = Particle::new(x, y, vel_x, s.vel_y, s.life, s.size);
        ps.push(p);
        proof {
            let f = |s: Spark| spark_particle(x as int, y as int, dir as int, s);
            assert(sparks@.subrange(0, i + 1) =~= sparks@.subrange(0, i as int).push(s));
            assert(sparks@.subrange(0, i + 1).map_values(f) =~= sparks@.subrange(0, i as int).map_values(f).push(p));
        }
        i = i + 1;
    }
    assert(sparks@.subrange(0, sparks@.len() as int) =~= sparks@);
}

} // verus!
