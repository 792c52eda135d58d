//! Pairwise collision detection and resolution: soft positional correction,
//! normal/tangent decomposition of the velocities, the 1-D elastic exchange
//! on the normal components, and the configured energy-loss scaling.

use vstd::prelude::*;
use crate::config::{Config, MILLI, VEL_LIMIT};
use crate::num::{
    clamp_i128_to_i64, div_trunc_i128, isqrt_u64, lemma_tdiv_abs_le, lemma_tdiv_multiples_vanish,
    lemma_tdiv_remainder, mul_i128, spec_clamp, sqrt_floor, tdiv,
};
use crate::particle::{particle_ok, Particle};
use crate::vec2::{mag_sq, spec_dot, spec_normalized, Vec2, NORM_SCALE};

verus! {

/// Divisor of the soft positional correction: 1/20 of the overlap per frame.
pub const CORRECTION_DIV: i64 = 20;

/// Squared Euclidean distance between two centers.
pub open spec fn dist_sq(a: Vec2, b: Vec2) -> int {
    (a.x - b.x) * (a.x - b.x) + (a.y - b.y) * (a.y - b.y)
}

/// Two particles collide when the distance between centers is below the sum
/// of their radii.
pub open spec fn colliding(a: Particle, b: Particle) -> bool {
    sqrt_floor(dist_sq(a.pos, b.pos)) < a.radius + b.radius
}

/// Numerator of the 1-D elastic collision formula for the first body:
/// the new normal velocity is `(v1*(m1 - m2) + 2*m2*v2) / (m1 + m2)`.
pub open spec fn exch_num(n1: int, n2: int, m1: int, m2: int) -> int {
    n1 * (m1 - m2) + 2 * m2 * n2
}

/// New normal velocity component of the first body, with truncating
/// division; swap the arguments for the second body.
pub open spec fn exch1(n1: int, n2: int, m1: int, m2: int) -> int {
    tdiv(exch_num(n1, n2, m1, m2), m1 + m2)
}

/// Soft positional correction: each body moves 1/20 of the overlap, times
/// the center difference in pixels, away from the other, clamped to the
/// window. The product of two lengths is divided by `UNITS_PER_PIXEL` once
/// to keep the pixel-valued shape of the formula.
pub open spec fn corrected_positions(p1: Particle, p2: Particle, cfg: Config) -> (Vec2, Vec2) {
    let dist = sqrt_floor(dist_sq(p1.pos, p2.pos));
    let overlap_mag = tdiv(p1.radius + p2.radius - dist, CORRECTION_DIV as int);
    let cdx = tdiv(overlap_mag * (p2.pos.x - p1.pos.x), crate::config::UNITS_PER_PIXEL as int);
    let cdy = tdiv(overlap_mag * (p2.pos.y - p1.pos.y), crate::config::UNITS_PER_PIXEL as int);
    (
        Vec2 {
            x: spec_clamp(p1.pos.x - cdx, 0, cfg.width as int) as i64,
            y: spec_clamp(p1.pos.y - cdy, 0, cfg.height as int) as i64,
        },
        Vec2 {
            x: spec_clamp(p2.pos.x + cdx, 0, cfg.width as int) as i64,
            y: spec_clamp(p2.pos.y + cdy, 0, cfg.height as int) as i64,
        },
    )
}

/// Rebuild one velocity component from the tangential component `t_comp`
/// along `(tx, ty)` and the normal component `n_comp` along `n`; both
/// components carry a factor `NORM_SCALE`, hence the scaled-square divisor.
/// The result is capped at `VEL_LIMIT`.
pub open spec fn reconstructed(n: Vec2, tx: int, ty: int, t_comp: int, n_comp: int) -> Vec2 {
    Vec2 {
        x: spec_clamp(
            tdiv(tx * t_comp + n.x * n_comp, NORM_SCALE as int * NORM_SCALE as int),
            -VEL_LIMIT as int,
            VEL_LIMIT as int,
        ) as i64,
        y: spec_clamp(
            tdiv(ty * t_comp + n.y * n_comp, NORM_SCALE as int * NORM_SCALE as int),
            -VEL_LIMIT as int,
            VEL_LIMIT as int,
        ) as i64,
    }
}

/// The configured energy-loss scaling, applied explicitly to a velocity;
/// `energy_loss_milli == 1000` keeps it exactly.
pub open spec fn apply_loss(v: Vec2, cfg: Config) -> Vec2 {
    Vec2 {
        x: spec_clamp(
            tdiv(v.x * cfg.energy_loss_milli, MILLI as int),
            -VEL_LIMIT as int,
            VEL_LIMIT as int,
        ) as i64,
        y: spec_clamp(
            tdiv(v.y * cfg.energy_loss_milli, MILLI as int),
            -VEL_LIMIT as int,
            VEL_LIMIT as int,
        ) as i64,
    }
}

/// Resolution of one colliding pair. Coincident centers (zero distance,
/// before or after the positional correction) are skipped rather than
/// resolved: the normal is undefined there, and with integer state nothing
/// else is a safe default.
pub open spec fn resolve_pair_spec(p1: Particle, p2: Particle, cfg: Config) -> (Particle,
    Particle) {
    if dist_sq(p1.pos, p2.pos) == 0 {
        (p1, p2)
    } else {
        let pos = corrected_positions(p1, p2, cfg);
        let q1 = Particle { pos: pos.0, vel: p1.vel, acc: p1.acc, radius: p1.radius, mass: p1.mass };
        let q2 = Particle { pos: pos.1, vel: p2.vel, acc: p2.acc, radius: p2.radius, mass: p2.mass };
        let d = Vec2 { x: (pos.1.x - pos.0.x) as i64, y: (pos.1.y - pos.0.y) as i64 };
        if mag_sq(d) == 0 {
            (q1, q2)
        } else {
            let n = spec_normalized(d);
            let tx = -n.y as int;
            let ty = n.x as int;
            let n1 = spec_dot(p1.vel, n);
            let n2 = spec_dot(p2.vel, n);
            let t1 = p1.vel.x * tx + p1.vel.y * ty;
            let t2 = p2.vel.x * tx + p2.vel.y * ty;
            let w1 = exch1(n1, n2, p1.mass as int, p2.mass as int);
            let w2 = exch1(n2, n1, p2.mass as int, p1.mass as int);
            let v1 = apply_loss(reconstructed(n, tx, ty, t1, w1), cfg);
            let v2 = apply_loss(reconstructed(n, tx, ty, t2, w2), cfg);
            (
                Particle { pos: pos.0, vel: v1, acc: p1.acc, radius: p1.radius, mass: p1.mass },
                Particle { pos: pos.1, vel: v2, acc: p2.acc, radius: p2.radius, mass: p2.mass },
            )
        }
    }
}

/// Index of the first particle at or after `j` (other than `i` itself) that
/// collides with particle `i`, if any.
pub open spec fn first_hit_from(ps: Seq<Particle>, i: int, j: int) -> Option<int>
    decreases ps.len() - j,
{
    if j >= ps.len() {
        None
    } else if j != i && colliding(ps[i], ps[j]) {
        Some(j)
    } else {
        first_hit_from(ps, i, j + 1)
    }
}

/// One particle's turn in the collision pass: scan in index order, resolve
/// against the first colliding partner only, then stop.
pub open spec fn resolve_one(ps: Seq<Particle>, i: int, cfg: Config) -> Seq<Particle>
    recommends
        0 <= i < ps.len(),
{
    match first_hit_from(ps, i, 0) {
        None => ps,
        Some(j) => {
            let pair = resolve_pair_spec(ps[i], ps[j], cfg);
            ps.update(i, pair.0).update(j, pair.1)
        },
    }
}

/// The collision pass after the first `i` particles have taken their turn,
/// each scanning the state its predecessors left behind.
pub open spec fn resolve_upto(ps: Seq<Particle>, cfg: Config, i: int) -> Seq<Particle>
    decreases i,
{
    if i <= 0 {
        ps
    } else {
        resolve_one(resolve_upto(ps, cfg, i - 1), i - 1, cfg)
    }
}

/// One whole collision pass over the system.
pub open spec fn resolve_all(ps: Seq<Particle>, cfg: Config) -> Seq<Particle> {
    resolve_upto(ps, cfg, ps.len() as int)
}

/// Equal-mass head-on exchange: with equal masses the elastic formula swaps
/// the normal velocity components exactly, truncation included.
pub proof fn lemma_equal_mass_exchange(n1: int, n2: int, m: int)
    requires
        m >= 1,
    ensures
        exch1(n1, n2, m, m) == n2,
        exch1(n2, n1, m, m) == n1,
{
    assert(exch_num(n1, n2, m, m) == (m + m) * n2) by (nonlinear_arith);
    assert(exch_num(n2, n1, m, m) == (m + m) * n1) by (nonlinear_arith);
    lemma_tdiv_multiples_vanish(n2, m + m);
    lemma_tdiv_multiples_vanish(n1, m + m);
}

#[verifier::rlimit(80)]
proof fn lemma_momentum_identity_raw(n1: int, n2: int, m1: int, m2: int)
    by (nonlinear_arith)
    ensures
        m1 * (n1 * (m1 - m2) + 2 * m2 * n2) + m2 * (n2 * (m2 - m1) + 2 * m1 * n1) == (m1 + m2) * (
        m1 * n1 + m2 * n2),
{
}

/// Momentum conservation, ideal form: before the truncating division, the
/// exchange numerators carry exactly the momentum of the incoming normal
/// components, scaled by the total mass.
pub proof fn lemma_momentum_identity(n1: int, n2: int, m1: int, m2: int)
    ensures
        m1 * exch_num(n1, n2, m1, m2) + m2 * exch_num(n2, n1, m2, m1) == (m1 + m2) * (m1 * n1 + m2
            * n2),
{
    lemma_momentum_identity_raw(n1, n2, m1, m2);
}

/// Momentum conservation of the computed exchange: the normal-component
/// momentum `m1*v_n1 + m2*v_n2` after the exchange differs from the one
/// before by strictly less than `m1 + m2`, the only loss being the two
/// truncating divisions.
pub proof fn lemma_momentum_bounded(n1: int, n2: int, m1: int, m2: int)
    requires
        m1 >= 1,
        m2 >= 1,
    ensures
        -(m1 + m2) < m1 * exch1(n1, n2, m1, m2) + m2 * exch1(n2, n1, m2, m1) - (m1 * n1 + m2 * n2)
            < m1 + m2,
{
    let s = m1 + m2;
    let a1 = exch_num(n1, n2, m1, m2);
    let a2 = exch_num(n2, n1, m2, m1);
    let q1 = tdiv(a1, s);
    let q2 = tdiv(a2, s);
    lemma_tdiv_remainder(a1, s);
    lemma_tdiv_remainder(a2, s);
    lemma_momentum_identity_raw(n1, n2, m1, m2);
    assert(-s < m1 * q1 + m2 * q2 - (m1 * n1 + m2 * n2) < s) by (nonlinear_arith)
        requires
            m1 >= 1,
            m2 >= 1,
            s == m1 + m2,
            -s < a1 - s * q1 < s,
            -s < a2 - s * q2 < s,
            m1 * a1 + m2 * a2 == s * (m1 * n1 + m2 * n2),
    ;
}

/// Degenerate-distance safety: a pair with coincident centers is left
/// exactly as it was, so no undefined normal ever reaches the velocities.
pub proof fn lemma_degenerate_pair_unchanged(p1: Particle, p2: Particle, cfg: Config)
    requires
        p1.pos == p2.pos,
    ensures
        resolve_pair_spec(p1, p2, cfg) == (p1, p2),
{
    assert(dist_sq(p1.pos, p2.pos) == 0);
}

/// Collision test on the current positions.
pub fn is_colliding(a: &Particle, b: &Particle, cfg: &Config) -> (r: bool)
    requires
        cfg.valid(),
        particle_ok(*a, *cfg),
        particle_ok(*b, *cfg),
    ensures
        r == colliding(*a, *b),
{
    let dxv: i64 = a.pos.x - b.pos.x;
    let dyv: i64 = a.pos.y - b.pos.y;
    proof {
        assert(dxv * dxv >= 0 && dyv * dyv >= 0) by (nonlinear_arith);
    }
    let dsq: i128 = mul_i128(dxv as i128, dxv as i128, Ghost(100_000_000), Ghost(100_000_000))
        + mul_i128(dyv as i128, dyv as i128, Ghost(100_000_000), Ghost(100_000_000));
    let dist_u = isqrt_u64(dsq as u64);
    proof {
        assert(dist_u <= 150_000_000) by (nonlinear_arith)
            requires
                dist_u >= 0,
                dist_u * dist_u <= dsq,
                dsq <= 20_000_000_000_000_000i128,
        ;
    }
    (dist_u as i64) < a.radius + b.radius
}

/// Resolve one colliding pair; exactly `resolve_pair_spec`, and both
/// results stay well formed.
pub fn resolve_pair(p1: &Particle, p2: &Particle, cfg: &Config) -> (r: (Particle, Particle))
    requires
        cfg.valid(),
        particle_ok(*p1, *cfg),
        particle_ok(*p2, *cfg),
    ensures
        r == resolve_pair_spec(*p1, *p2, *cfg),
        particle_ok(r.0, *cfg),
        particle_ok(r.1, *cfg),
{
    let dxv: i64 = p1.pos.x - p2.pos.x;
    let dyv: i64 = p1.pos.y - p2.pos.y;
    proof {
        assert(dxv * dxv >= 0 && dyv * dyv >= 0) by (nonlinear_arith);
    }
    let dsq: i128 = mul_i128(dxv as i128, dxv as i128, Ghost(100_000_000), Ghost(100_000_000))
        + mul_i128(dyv as i128, dyv as i128, Ghost(100_000_000), Ghost(100_000_000));
    if dsq == 0 {
        return (*p1, *p2);
    }
    let dist_u = isqrt_u64(dsq as u64);
    proof {
        assert(dist_u <= 150_000_000) by (nonlinear_arith)
            requires
                dist_u >= 0,
                dist_u * dist_u <= dsq,
                dsq <= 20_000_000_000_000_000i128,
        ;
    }
    let dist: i64 = dist_u as i64;

    // Soft positional correction.
    let overlap_mag_w = div_trunc_i128(
        (p1.radius + p2.radius - dist) as i128,
        CORRECTION_DIV as i128,
    );
    proof {
        lemma_tdiv_abs_le((p1.radius + p2.radius - dist) as int, CORRECTION_DIV as int);
    }
    let cdx = div_trunc_i128(
        mul_i128(
            overlap_mag_w,
            (p2.pos.x - p1.pos.x) as i128,
            Ghost(200_000_000),
            Ghost(100_000_000),
        ),
        crate::config::UNITS_PER_PIXEL as i128,
    );
    let cdy = div_trunc_i128(
        mul_i128(
            overlap_mag_w,
            (p2.pos.y - p1.pos.y) as i128,
            Ghost(200_000_000),
            Ghost(100_000_000),
        ),
        crate::config::UNITS_PER_PIXEL as i128,
    );
    let n1x = clamp_i128_to_i64(p1.pos.x as i128 - cdx, 0, cfg.width);
    let n1y = clamp_i128_to_i64(p1.pos.y as i128 - cdy, 0, cfg.height);
    let n2x = clamp_i128_to_i64(p2.pos.x as i128 + cdx, 0, cfg.width);
    let n2y = clamp_i128_to_i64(p2.pos.y as i128 + cdy, 0, cfg.height);
    let q1 = Particle { pos: Vec2 { x: n1x, y: n1y }, vel: p1.vel, acc: p1.acc, radius: p1.radius, mass: p1.mass };
    let q2 = Particle { pos: Vec2 { x: n2x, y: n2y }, vel: p2.vel, acc: p2.acc, radius: p2.radius, mass: p2.mass };

    // Recomputed geometry after the correction.
    let d = Vec2 { x: n2x - n1x, y: n2y - n1y };
    if d.x == 0 && d.y == 0 {
        return (q1, q2);
    }
    proof {
        if d.x != 0 {
            assert(d.x * d.x >= 1) by (nonlinear_arith)
                requires
                    d.x != 0,
            ;
            assert(d.y * d.y >= 0) by (nonlinear_arith);
        } else {
            assert(d.y * d.y >= 1) by (nonlinear_arith)
                requires
                    d.y != 0,
            ;
            assert(d.x * d.x >= 0) by (nonlinear_arith);
        }
    }
    let n = d.normalized();
    let tx: i64 = -n.y;
    let ty: i64 = n.x;

    // Normal and tangential velocity components, scaled by NORM_SCALE.
    let dn1 = mul_i128(p1.vel.x as i128, n.x as i128, Ghost(1_000_000), Ghost(1_000_000))
        + mul_i128(p1.vel.y as i128, n.y as i128, Ghost(1_000_000), Ghost(1_000_000));
    let dn2 = mul_i128(p2.vel.x as i128, n.x as i128, Ghost(1_000_000), Ghost(1_000_000))
        + mul_i128(p2.vel.y as i128, n.y as i128, Ghost(1_000_000), Ghost(1_000_000));
    let dt1 = mul_i128(p1.vel.x as i128, tx as i128, Ghost(1_000_000), Ghost(1_000_000))
        + mul_i128(p1.vel.y as i128, ty as i128, Ghost(1_000_000), Ghost(1_000_000));
    let dt2 = mul_i128(p2.vel.x as i128, tx as i128, Ghost(1_000_000), Ghost(1_000_000))
        + mul_i128(p2.vel.y as i128, ty as i128, Ghost(1_000_000), Ghost(1_000_000));

    // 1-D elastic exchange on the normal components.
    let s: i128 = p1.mass as i128 + p2.mass as i128;
    let num1 = mul_i128(dn1, (p1.mass - p2.mass) as i128, Ghost(2_000_000_000_000), Ghost(
        1_000_000,
    )) + mul_i128(2 * (p2.mass as i128), dn2, Ghost(2_000_000), Ghost(2_000_000_000_000));
    let num2 = mul_i128(dn2, (p2.mass - p1.mass) as i128, Ghost(2_000_000_000_000), Ghost(
        1_000_000,
    )) + mul_i128(2 * (p1.mass as i128), dn1, Ghost(2_000_000), Ghost(2_000_000_000_000));
    let w1 = div_trunc_i128(num1, s);
    let w2 = div_trunc_i128(num2, s);
    proof {
        lemma_tdiv_abs_le(num1 as int, s as int);
        lemma_tdiv_abs_le(num2 as int, s as int);
    }

    // Reconstruction: tangential components pass through unchanged.
    let v1x = clamp_i128_to_i64(
        div_trunc_i128(
            mul_i128(tx as i128, dt1, Ghost(1_000_000), Ghost(2_000_000_000_000)) + mul_i128(
                n.x as i128,
                w1,
                Ghost(1_000_000),
                Ghost(6_000_000_000_000_000_000),
            ),
            1_000_000_000_000,
        ),
        -VEL_LIMIT,
        VEL_LIMIT,
    );
    let v1y = clamp_i128_to_i64(
        div_trunc_i128(
            mul_i128(ty as i128, dt1, Ghost(1_000_000), Ghost(2_000_000_000_000)) + mul_i128(
                n.y as i128,
                w1,
                Ghost(1_000_000),
                Ghost(6_000_000_000_000_000_000),
            ),
            1_000_000_000_000,
        ),
        -VEL_LIMIT,
        VEL_LIMIT,
    );
    let v2x = clamp_i128_to_i64(
        div_trunc_i128(
            mul_i128(tx as i128, dt2, Ghost(1_000_000), Ghost(2_000_000_000_000)) + mul_i128(
                n.x as i128,
                w2,
                Ghost(1_000_000),
                Ghost(6_000_000_000_000_000_000),
            ),
            1_000_000_000_000,
        ),
        -VEL_LIMIT,
        VEL_LIMIT,
    );
    let v2y = clamp_i128_to_i64(
        div_trunc_i128(
            mul_i128(ty as i128, dt2, Ghost(1_000_000), Ghost(2_000_000_000_000)) + mul_i128(
                n.y as i128,
                w2,
                Ghost(1_000_000),
                Ghost(6_000_000_000_000_000_000),
            ),
            1_000_000_000_000,
        ),
        -VEL_LIMIT,
        VEL_LIMIT,
    );

    // Energy-loss scaling, applied explicitly.
    let l1x = clamp_i128_to_i64(
        div_trunc_i128(
            mul_i128(v1x as i128, cfg.energy_loss_milli as i128, Ghost(1_000_000), Ghost(1000)),
            MILLI as i128,
        ),
        -VEL_LIMIT,
        VEL_LIMIT,
    );
    let l1y = clamp_i128_to_i64(
        div_trunc_i128(
            mul_i128(v1y as i128, cfg.energy_loss_milli as i128, Ghost(1_000_000), Ghost(1000)),
            MILLI as i128,
        ),
        -VEL_LIMIT,
        VEL_LIMIT,
    );
    let l2x = clamp_i128_to_i64(
        div_trunc_i128(
            mul_i128(v2x as i128, cfg.energy_loss_milli as i128, Ghost(1_000_000), Ghost(1000)),
            MILLI as i128,
        ),
        -VEL_LIMIT,
        VEL_LIMIT,
    );
    let l2y = clamp_i128_to_i64(
        div_trunc_i128(
            mul_i128(v2y as i128, cfg.energy_loss_milli as i128, Ghost(1_000_000), Ghost(1000)),
            MILLI as i128,
        ),
        -VEL_LIMIT,
        VEL_LIMIT,
    );

    (
        Particle {
            pos: Vec2 { x: n1x, y: n1y },
            vel: Vec2 { x: l1x, y: l1y },
            acc: p1.acc,
            radius: p1.radius,
            mass: p1.mass,
        },
        Particle {
            pos: Vec2 { x: n2x, y: n2y },
            vel: Vec2 { x: l2x, y: l2y },
            acc: p2.acc,
            radius: p2.radius,
            mass: p2.mass,
        },
    )
}

/// One collision pass over the whole system. Each particle in index order
/// scans all others in index order and resolves against the first colliding
/// partner only; coincident pairs are skipped inside `resolve_pair`.
pub fn handle_collisions(particles: &mut Vec<Particle>, cfg: &Config)
    requires
        cfg.valid(),
        forall|k: int|
            0 <= k < old(particles)@.len() ==> particle_ok(#[trigger] old(particles)@[k], *cfg),
    ensures
        final(particles)@ == resolve_all(old(particles)@, *cfg),
        final(particles)@.len() == old(particles)@.len(),
        forall|k: int|
            0 <= k < final(particles)@.len() ==> particle_ok(#[trigger] final(particles)@[k], *cfg),
{
    let ghost ps0 = particles@;
    let n = particles.len();
    let mut i: usize = 0;
    while i < n
        invariant
            cfg.valid(),
            i <= n,
            particles@.len() == n,
            ps0.len() == n,
            particles@ == resolve_upto(ps0, *cfg, i as int),
            forall|k: int| 0 <= k < n ==> particle_ok(#[trigger] particles@[k], *cfg),
        decreases n - i,
    {
        let ghost psi = particles@;
        let mut j: usize = 0;
        let mut done = false;
        while j < n
            invariant
                cfg.valid(),
                i < n,
                j <= n,
                particles@.len() == n,
                psi.len() == n,
                psi == resolve_upto(ps0, *cfg, i as int),
                forall|k: int| 0 <= k < n ==> particle_ok(#[trigger] particles@[k], *cfg),
                !done ==> particles@ == psi,
                !done ==> first_hit_from(psi, i as int, 0) == first_hit_from(
                    psi,
                    i as int,
                    j as int,
                ),
                done ==> particles@ == resolve_one(psi, i as int, *cfg),
                done ==> j == n,
            decreases n - j,
        {
            if j != i {
                let pi = particles[i];
                let pj = particles[j];
                if is_colliding(&pi, &pj, cfg) {
                    proof {
                        assert(pi == psi[i as int]);
                        assert(pj == psi[j as int]);
                        assert((j as int) < psi.len() && j != i && colliding(
                            psi[i as int],
                            psi[j as int],
                        ));
                        assert(first_hit_from(psi, i as int, j as int) == Some(j as int));
                    }
                    let pair = resolve_pair(&pi, &pj, cfg);
                    particles.set(i, pair.0);
                    particles.set(j, pair.1);
                    proof {
                        assert(particles@ =~= psi.update(i as int, pair.0).update(
                            j as int,
                            pair.1,
                        ));
                        assert(resolve_one(psi, i as int, *cfg) == psi.update(
                            i as int,
                            pair.0,
                        ).update(j as int, pair.1));
                    }
                    done = true;
                    j = n;
                } else {
                    j = j + 1;
                }
            } else {
                j = j + 1;
            }
        }
        proof {
            if !done {
                assert(first_hit_from(psi, i as int, j as int) is None);
                assert(resolve_one(psi, i as int, *cfg) == psi);
            }
            assert(resolve_upto(ps0, *cfg, i as int + 1) == resolve_one(psi, i as int, *cfg));
        }
        i = i + 1;
    }
}

} // verus!
