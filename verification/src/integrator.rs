//! Per-particle kinematics, once per frame: friction-scaled acceleration
//! plus gravity, semi-implicit Euler velocity and position updates, then
//! axis-independent wall reflection with exact clamping to the wall.

use vstd::prelude::*;
use crate::config::{Config, ACC_LIMIT, MILLI, VEL_LIMIT};
use crate::num::{clamp_i128_to_i64, div_trunc_i128, mul_i128, spec_clamp, tdiv};
use crate::particle::{in_bounds, particle_ok, Particle};
use crate::vec2::Vec2;

verus! {

/// Acceleration after one step: the previous acceleration scaled by
/// `-friction / 1000`, plus gravity, capped at `ACC_LIMIT`.
pub open spec fn accel_after(p: Particle, cfg: Config) -> Vec2 {
    Vec2 {
        x: spec_clamp(
            tdiv(p.acc.x * -cfg.friction_milli, MILLI as int) + cfg.gravity.x,
            -ACC_LIMIT as int,
            ACC_LIMIT as int,
        ) as i64,
        y: spec_clamp(
            tdiv(p.acc.y * -cfg.friction_milli, MILLI as int) + cfg.gravity.y,
            -ACC_LIMIT as int,
            ACC_LIMIT as int,
        ) as i64,
    }
}

/// Velocity after the acceleration is applied, capped at `VEL_LIMIT`.
pub open spec fn vel_after(p: Particle, cfg: Config) -> Vec2 {
    let a = accel_after(p, cfg);
    Vec2 {
        x: spec_clamp(p.vel.x + a.x, -VEL_LIMIT as int, VEL_LIMIT as int) as i64,
        y: spec_clamp(p.vel.y + a.y, -VEL_LIMIT as int, VEL_LIMIT as int) as i64,
    }
}

/// Wall reflection on one axis: `r` is the tentative coordinate, `v` the
/// velocity component. Crossing a wall flips the velocity sign and clamps
/// the coordinate exactly to the wall.
pub open spec fn reflect_axis(r: int, v: int, radius: int, dim: int) -> (int, int) {
    if r < radius {
        (radius, -v)
    } else if r + radius > dim {
        (dim - radius, -v)
    } else {
        (r, v)
    }
}

/// One integration step of a single particle.
pub open spec fn step_particle_spec(p: Particle, cfg: Config) -> Particle {
    let a = accel_after(p, cfg);
    let v = vel_after(p, cfg);
    let rx = reflect_axis(p.pos.x + v.x, v.x as int, p.radius as int, cfg.width as int);
    let ry = reflect_axis(p.pos.y + v.y, v.y as int, p.radius as int, cfg.height as int);
    Particle {
        pos: Vec2 { x: rx.0 as i64, y: ry.0 as i64 },
        vel: Vec2 { x: rx.1 as i64, y: ry.1 as i64 },
        acc: a,
        radius: p.radius,
        mass: p.mass,
    }
}

/// One integration step of every particle, in order.
pub open spec fn step_all(ps: Seq<Particle>, cfg: Config) -> Seq<Particle> {
    ps.map_values(|p: Particle| step_particle_spec(p, cfg))
}

/// `n` integration steps of every particle.
pub open spec fn iterate_steps(ps: Seq<Particle>, cfg: Config, n: nat) -> Seq<Particle>
    decreases n,
{
    if n == 0 {
        ps
    } else {
        step_all(iterate_steps(ps, cfg, (n - 1) as nat), cfg)
    }
}

/// A step keeps a particle well formed and leaves it strictly inside the
/// walls on both axes.
pub proof fn lemma_step_spec_ok(p: Particle, cfg: Config)
    requires
        cfg.valid(),
        particle_ok(p, cfg),
    ensures
        particle_ok(step_particle_spec(p, cfg), cfg),
        in_bounds(step_particle_spec(p, cfg), cfg),
{
    assert(-(MILLI * ACC_LIMIT) <= p.acc.x * -cfg.friction_milli <= MILLI * ACC_LIMIT)
        by (nonlinear_arith)
        requires
            -ACC_LIMIT <= p.acc.x <= ACC_LIMIT,
            0 <= cfg.friction_milli <= MILLI,
            MILLI == 1000i64 && ACC_LIMIT == 1_000_000i64,
    ;
    assert(-(MILLI * ACC_LIMIT) <= p.acc.y * -cfg.friction_milli <= MILLI * ACC_LIMIT)
        by (nonlinear_arith)
        requires
            -ACC_LIMIT <= p.acc.y <= ACC_LIMIT,
            0 <= cfg.friction_milli <= MILLI,
            MILLI == 1000i64 && ACC_LIMIT == 1_000_000i64,
    ;
    crate::num::lemma_tdiv_bound(p.acc.x * -cfg.friction_milli, MILLI as int, ACC_LIMIT as int);
    crate::num::lemma_tdiv_bound(p.acc.y * -cfg.friction_milli, MILLI as int, ACC_LIMIT as int);
}

/// Boundary invariant: starting from any well-formed system, after any
/// number of integrator steps every particle is well formed, and after at
/// least one step every particle's disk lies fully inside the window:
/// `radius <= pos.x <= width - radius`, and likewise for the y-axis.
pub proof fn lemma_boundary_invariant(ps: Seq<Particle>, cfg: Config, n: nat)
    requires
        cfg.valid(),
        forall|i: int| 0 <= i < ps.len() ==> particle_ok(#[trigger] ps[i], cfg),
    ensures
        iterate_steps(ps, cfg, n).len() == ps.len(),
        forall|i: int|
            0 <= i < ps.len() ==> particle_ok(#[trigger] iterate_steps(ps, cfg, n)[i], cfg),
        n >= 1 ==> forall|i: int|
            0 <= i < ps.len() ==> in_bounds(#[trigger] iterate_steps(ps, cfg, n)[i], cfg),
    decreases n,
{
    if n > 0 {
        lemma_boundary_invariant(ps, cfg, (n - 1) as nat);
        let prev = iterate_steps(ps, cfg, (n - 1) as nat);
        assert forall|i: int| 0 <= i < ps.len() implies particle_ok(
            #[trigger] iterate_steps(ps, cfg, n)[i],
            cfg,
        ) && in_bounds(iterate_steps(ps, cfg, n)[i], cfg) by {
            assert(iterate_steps(ps, cfg, n)[i] == step_particle_spec(prev[i], cfg));
            lemma_step_spec_ok(prev[i], cfg);
        }
    }
}

/// Reflection law: a particle moving left whose tentative position crosses
/// the left wall comes out of the step with its x-velocity sign flipped and
/// its x-position clamped to exactly `radius`.
pub proof fn lemma_reflection_left(p: Particle, cfg: Config)
    requires
        cfg.valid(),
        particle_ok(p, cfg),
        vel_after(p, cfg).x < 0,
        p.pos.x + vel_after(p, cfg).x < p.radius,
    ensures
        step_particle_spec(p, cfg).vel.x == -vel_after(p, cfg).x,
        step_particle_spec(p, cfg).pos.x == p.radius,
{
}

/// One integration step of a single particle; exactly `step_particle_spec`.
pub fn step_particle(p: &Particle, cfg: &Config) -> (r: Particle)
    requires
        cfg.valid(),
        particle_ok(*p, *cfg),
    ensures
        r == step_particle_spec(*p, *cfg),
        particle_ok(r, *cfg),
        in_bounds(r, *cfg),
{
    proof {
        lemma_step_spec_ok(*p, *cfg);
    }
    let scaled_ax = div_trunc_i128(
        mul_i128(p.acc.x as i128, -cfg.friction_milli as i128, Ghost(1_000_000), Ghost(1000)),
        MILLI as i128,
    );
    let scaled_ay = div_trunc_i128(
        mul_i128(p.acc.y as i128, -cfg.friction_milli as i128, Ghost(1_000_000), Ghost(1000)),
        MILLI as i128,
    );
    let ax = clamp_i128_to_i64(scaled_ax + cfg.gravity.x as i128, -ACC_LIMIT, ACC_LIMIT);
    let ay = clamp_i128_to_i64(scaled_ay + cfg.gravity.y as i128, -ACC_LIMIT, ACC_LIMIT);
    let vx = clamp_i128_to_i64(p.vel.x as i128 + ax as i128, -VEL_LIMIT, VEL_LIMIT);
    let vy = clamp_i128_to_i64(p.vel.y as i128 + ay as i128, -VEL_LIMIT, VEL_LIMIT);
    let raw_x = p.pos.x + vx;
    let raw_y = p.pos.y + vy;

    let mut out_vx = vx;
    let mut out_vy = vy;
    let mut out_x = raw_x;
    let mut out_y = raw_y;
    if raw_x < p.radius {
        out_vx = -vx;
        out_x = p.radius;
    } else if raw_x + p.radius > cfg.width {
        out_vx = -vx;
        out_x = cfg.width - p.radius;
    }
    if raw_y < p.radius {
        out_vy = -vy;
        out_y = p.radius;
    } else if raw_y + p.radius > cfg.height {
        out_vy = -vy;
        out_y = cfg.height - p.radius;
    }
    Particle {
        pos: Vec2 { x: out_x, y: out_y },
        vel: Vec2 { x: out_vx, y: out_vy },
        acc: Vec2 { x: ax, y: ay },
        radius: p.radius,
        mass: p.mass,
    }
}

/// One frame of kinematics: every particle takes one integration step.
pub fn handle_kinematics(particles: &mut Vec<Particle>, cfg: &Config)
    requires
        cfg.valid(),
        forall|i: int|
            0 <= i < old(particles)@.len() ==> particle_ok(#[trigger] old(particles)@[i], *cfg),
    ensures
        final(particles)@ == step_all(old(particles)@, *cfg),
        final(particles)@.len() == old(particles)@.len(),
        forall|i: int|
            0 <= i < final(particles)@.len() ==> particle_ok(#[trigger] final(particles)@[i], *cfg)
                && in_bounds(final(particles)@[i], *cfg),
{
    let ghost ps0 = particles@;
    let n = particles.len();
    let mut i: usize = 0;
    while i < n
        invariant
            cfg.valid(),
            i <= n,
            particles@.len() == n,
            ps0.len() == n,
            forall|k: int| i <= k < n ==> #[trigger] particles@[k] == ps0[k],
            forall|k: int| 0 <= k < n ==> particle_ok(#[trigger] ps0[k], *cfg),
            forall|k: int|
                0 <= k < i ==> #[trigger] particles@[k] == step_particle_spec(ps0[k], *cfg)
                    && particle_ok(particles@[k], *cfg) && in_bounds(particles@[k], *cfg),
        decreases n - i,
    {
        let p = particles[i];
        let stepped = step_particle(&p, cfg);
        particles.set(i, stepped);
        i = i + 1;
    }
    proof {
        assert(particles@ =~= step_all(ps0, *cfg));
    }
}

} // verus!
