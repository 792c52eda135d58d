//! A particle: a moving circular body, its well-formedness invariant, and
//! the randomized spawn factory.

use vstd::prelude::*;
use crate::config::{Config, ACC_LIMIT, MASS_LIMIT, RADIUS_LIMIT, VEL_LIMIT};
use crate::num::{clamp_i64, spec_clamp};
use crate::rng::{next_state, range_val, SimRng};
use crate::vec2::Vec2;

verus! {

#[derive(Clone, Copy, PartialEq, Eq, Structural, Debug)]
pub struct Particle {
    pub pos: Vec2,
    pub vel: Vec2,
    pub acc: Vec2,
    pub radius: i64,
    pub mass: i64,
}

/// Well-formedness of a particle with respect to a configuration: positive
/// bounded radius and mass, the body fits between opposite walls, velocity
/// and acceleration within the defensive caps, position inside the window
/// rectangle (though not necessarily clear of the walls).
pub open spec fn particle_ok(p: Particle, cfg: Config) -> bool {
    &&& 0 < p.radius <= RADIUS_LIMIT
    &&& 2 * p.radius <= cfg.width
    &&& 2 * p.radius <= cfg.height
    &&& 0 < p.mass <= MASS_LIMIT
    &&& -VEL_LIMIT <= p.vel.x <= VEL_LIMIT
    &&& -VEL_LIMIT <= p.vel.y <= VEL_LIMIT
    &&& -ACC_LIMIT <= p.acc.x <= ACC_LIMIT
    &&& -ACC_LIMIT <= p.acc.y <= ACC_LIMIT
    &&& 0 <= p.pos.x <= cfg.width
    &&& 0 <= p.pos.y <= cfg.height
}

/// The boundary invariant: the whole disk lies inside the window.
pub open spec fn in_bounds(p: Particle, cfg: Config) -> bool {
    &&& p.radius <= p.pos.x <= cfg.width - p.radius
    &&& p.radius <= p.pos.y <= cfg.height - p.radius
}

/// The particle `spawn_particle` builds at `(x, y)` from generator state `s`:
/// two velocity draws, then the mass draw; radius equals the drawn mass and
/// acceleration starts at zero. The position is clamped into the window.
pub open spec fn spawn_particle_spec(cfg: Config, s: u64, x: i64, y: i64) -> Particle {
    let s1 = next_state(s);
    let s2 = next_state(s1);
    Particle {
        pos: Vec2 {
            x: spec_clamp(x as int, 0, cfg.width as int) as i64,
            y: spec_clamp(y as int, 0, cfg.height as int) as i64,
        },
        vel: Vec2 {
            x: range_val(s, cfg.vel_min as int, cfg.vel_max as int) as i64,
            y: range_val(s1, cfg.vel_min as int, cfg.vel_max as int) as i64,
        },
        acc: Vec2 { x: 0, y: 0 },
        radius: range_val(s2, cfg.radius_min as int, cfg.radius_max as int) as i64,
        mass: range_val(s2, cfg.radius_min as int, cfg.radius_max as int) as i64,
    }
}

/// Generator state after one spawn (three draws).
pub open spec fn state_after_spawn(s: u64) -> u64 {
    next_state(next_state(next_state(s)))
}

/// Create a particle at `(x, y)` with velocity components drawn from
/// `[vel_min, vel_max]` and mass (= radius) drawn from
/// `[radius_min, radius_max]`.
pub fn spawn_particle(cfg: &Config, rng: &mut SimRng, x: i64, y: i64) -> (p: Particle)
    requires
        cfg.valid(),
    ensures
        p == spawn_particle_spec(*cfg, old(rng).state, x, y),
        final(rng).state == state_after_spawn(old(rng).state),
        cfg.vel_min <= p.vel.x <= cfg.vel_max,
        cfg.vel_min <= p.vel.y <= cfg.vel_max,
        cfg.radius_min <= p.mass <= cfg.radius_max,
        p.radius == p.mass,
        p.acc == (Vec2 { x: 0, y: 0 }),
        particle_ok(p, *cfg),
{
    let vx = rng.gen_range(cfg.vel_min, cfg.vel_max);
    let vy = rng.gen_range(cfg.vel_min, cfg.vel_max);
    let mass = rng.gen_range(cfg.radius_min, cfg.radius_max);
    Particle {
        pos: Vec2 { x: clamp_i64(x, 0, cfg.width), y: clamp_i64(y, 0, cfg.height) },
        vel: Vec2 { x: vx, y: vy },
        acc: Vec2 { x: 0, y: 0 },
        radius: mass,
        mass,
    }
}

} // verus!
