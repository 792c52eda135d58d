use particles::collision::{handle_collisions, is_colliding, resolve_pair};
use particles::config::Config;
use particles::integrator::{handle_kinematics, step_particle};
use particles::particle::Particle;
use particles::vec2::Vec2;

fn cfg() -> Config {
    Config::default()
}

fn body(x: i64, y: i64, vx: i64, vy: i64, m: i64) -> Particle {
    Particle {
        pos: Vec2 { x, y },
        vel: Vec2 { x: vx, y: vy },
        acc: Vec2 { x: 0, y: 0 },
        radius: m,
        mass: m,
    }
}

#[test]
fn reflection_left_wall_flips_velocity_and_clamps() {
    let c = cfg();
    // At the wall, moving left one pixel per step.
    let p = body(5_000, 360_000, -1_000, 0, 5_000);
    let r = step_particle(&p, &c);
    assert_eq!(r.vel.x, 1_000);
    assert_eq!(r.pos.x, 5_000, "x is clamped to exactly the radius");
    assert_eq!(r.vel.y, 0);
    assert_eq!(r.pos.y, 360_000);
}

#[test]
fn reflection_right_wall() {
    let c = cfg();
    let p = body(1_275_500, 360_000, 1_000, 0, 5_000);
    let r = step_particle(&p, &c);
    assert_eq!(r.vel.x, -1_000);
    assert_eq!(r.pos.x, c.width - 5_000);
}

#[test]
fn reflection_corner_both_axes_in_one_step() {
    let c = cfg();
    let p = body(5_000, 5_000, -1_000, -1_000, 5_000);
    let r = step_particle(&p, &c);
    assert_eq!(r.vel.x, 1_000);
    assert_eq!(r.vel.y, 1_000);
    assert_eq!(r.pos.x, 5_000);
    assert_eq!(r.pos.y, 5_000);
}

#[test]
fn gravity_accumulates_into_velocity_and_position() {
    let mut c = cfg();
    c.gravity = Vec2 { x: 0, y: 100 };
    let p = body(640_000, 360_000, 0, 0, 5_000);
    let r = step_particle(&p, &c);
    assert_eq!(r.acc.y, 100);
    assert_eq!(r.vel.y, 100);
    assert_eq!(r.pos.y, 360_100);
}

#[test]
fn full_friction_negates_previous_acceleration() {
    let mut c = cfg();
    c.friction_milli = 1000;
    let mut p = body(640_000, 360_000, 0, 0, 5_000);
    p.acc = Vec2 { x: 500, y: -40 };
    let r = step_particle(&p, &c);
    assert_eq!(r.acc.x, -500);
    assert_eq!(r.acc.y, 40);
    assert_eq!(r.vel.x, -500);
    assert_eq!(r.vel.y, 40);
}

#[test]
fn boundary_invariant_over_many_steps() {
    let mut c = cfg();
    c.gravity = Vec2 { x: 7, y: 13 };
    let mut particles = vec![
        body(5_000, 5_000, -1_000, -1_000, 5_000),
        body(1_200_000, 700_000, 900, 750, 25_000),
        body(640_000, 360_000, -333, 777, 12_000),
    ];
    for _ in 0..2_000 {
        handle_kinematics(&mut particles, &c);
        for p in particles.iter() {
            assert!(p.radius <= p.pos.x && p.pos.x <= c.width - p.radius);
            assert!(p.radius <= p.pos.y && p.pos.y <= c.height - p.radius);
        }
    }
}

#[test]
fn equal_mass_head_on_exchange_is_exact() {
    let c = cfg();
    // Equal masses, approaching head-on along the line of centers; the
    // normal is (1, 0).
    let p1 = body(100_000, 100_000, 1_000, 0, 5_000);
    let p2 = body(109_000, 100_000, -1_000, 0, 5_000);
    assert!(is_colliding(&p1, &p2, &c));
    let (a, b) = resolve_pair(&p1, &p2, &c);
    // Normal velocity components are exchanged exactly.
    assert_eq!(a.vel, Vec2 { x: -1_000, y: 0 });
    assert_eq!(b.vel, Vec2 { x: 1_000, y: 0 });
    // Soft positional correction: 1/20 of the overlap (1000 units over
    // 9000 units distance) pushed each body 450 units apart.
    assert_eq!(a.pos, Vec2 { x: 99_550, y: 100_000 });
    assert_eq!(b.pos, Vec2 { x: 109_450, y: 100_000 });
    // Masses and radii untouched.
    assert_eq!(a.mass, 5_000);
    assert_eq!(b.mass, 5_000);
}

#[test]
fn unequal_mass_exchange_conserves_momentum() {
    let c = cfg();
    let p1 = body(100_000, 100_000, 1_000, 0, 2_000);
    let mut p2 = body(109_000, 100_000, -1_000, 0, 8_000);
    p2.radius = 5_000;
    let mut p1m = p1;
    p1m.radius = 5_000;
    let (a, b) = resolve_pair(&p1m, &p2, &c);
    assert_eq!(a.vel.x, -2_200);
    assert_eq!(b.vel.x, -200);
    let before = p1m.mass * p1m.vel.x + p2.mass * p2.vel.x;
    let after = a.mass * a.vel.x + b.mass * b.vel.x;
    assert_eq!(before, after, "normal momentum is conserved exactly here");
    assert_eq!(a.vel.y, 0);
    assert_eq!(b.vel.y, 0);
}

#[test]
fn energy_loss_scales_outgoing_velocities() {
    let mut c = cfg();
    c.energy_loss_milli = 500;
    let p1 = body(100_000, 100_000, 1_000, 0, 5_000);
    let p2 = body(109_000, 100_000, -1_000, 0, 5_000);
    let (a, b) = resolve_pair(&p1, &p2, &c);
    // The exact exchange gives (-1000, +1000); half the energy factor
    // halves each component.
    assert_eq!(a.vel, Vec2 { x: -500, y: 0 });
    assert_eq!(b.vel, Vec2 { x: 500, y: 0 });
}

#[test]
fn diagonal_collision_keeps_momentum_within_tolerance() {
    let c = cfg();
    // An oblique collision: the normal is no longer axis-aligned, so the
    // fixed-point rounding may shave a few units, bounded by the masses.
    let p1 = body(100_000, 100_000, 900, 350, 7_000);
    let p2 = body(106_000, 105_000, -800, -450, 11_000);
    let mut p1b = p1;
    p1b.radius = 5_000;
    let mut p2b = p2;
    p2b.radius = 5_000;
    assert!(is_colliding(&p1b, &p2b, &c));
    let (a, bq) = resolve_pair(&p1b, &p2b, &c);
    let before_x = p1b.mass * p1b.vel.x + p2b.mass * p2b.vel.x;
    let after_x = a.mass * a.vel.x + bq.mass * bq.vel.x;
    let before_y = p1b.mass * p1b.vel.y + p2b.mass * p2b.vel.y;
    let after_y = a.mass * a.vel.y + bq.mass * bq.vel.y;
    let tol = 4 * (p1b.mass + p2b.mass);
    assert!((after_x - before_x).abs() <= tol, "x momentum drift {}", after_x - before_x);
    assert!((after_y - before_y).abs() <= tol, "y momentum drift {}", after_y - before_y);
    // Something actually happened.
    assert_ne!(a.vel, p1b.vel);
    assert_ne!(bq.vel, p2b.vel);
}

#[test]
fn coincident_centers_are_left_unchanged() {
    let c = cfg();
    let p1 = body(200_000, 300_000, 1_000, -500, 10_000);
    let p2 = body(200_000, 300_000, -700, 42, 10_000);
    let (a, b) = resolve_pair(&p1, &p2, &c);
    assert_eq!(a, p1);
    assert_eq!(b, p2);
    // The same through the whole collision pass.
    let mut particles = vec![p1, p2];
    handle_collisions(&mut particles, &c);
    assert_eq!(particles[0], p1);
    assert_eq!(particles[1], p2);
}

#[test]
fn separated_particles_are_left_unchanged() {
    let c = cfg();
    let p1 = body(100_000, 100_000, 1_000, 0, 5_000);
    let p2 = body(400_000, 100_000, -1_000, 0, 5_000);
    assert!(!is_colliding(&p1, &p2, &c));
    let mut particles = vec![p1, p2];
    handle_collisions(&mut particles, &c);
    assert_eq!(particles[0], p1);
    assert_eq!(particles[1], p2);
}

#[test]
fn first_match_policy_resolves_in_index_order() {
    let c = cfg();
    // Particle 0 overlaps both 1 and 2. Replay the documented policy by
    // hand: each particle in index order resolves against the first
    // colliding partner in index order, then stops for the frame.
    let p0 = body(100_000, 100_000, 300, -100, 10_000);
    let p1 = body(112_000, 100_000, -400, 0, 10_000);
    let p2 = body(100_000, 112_000, 0, -500, 10_000);
    let mut expected = vec![p0, p1, p2];
    for i in 0..expected.len() {
        for j in 0..expected.len() {
            if i != j && is_colliding(&expected[i], &expected[j], &c) {
                let (a, b) = resolve_pair(&expected[i], &expected[j], &c);
                expected[i] = a;
                expected[j] = b;
                break;
            }
        }
    }
    let mut actual = vec![p0, p1, p2];
    handle_collisions(&mut actual, &c);
    assert_eq!(actual, expected);
    assert_ne!(actual[0], p0, "the overlapping pile must actually move");
}
