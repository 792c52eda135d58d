use particles::config::{Config, ConfigError};
use particles::particle::spawn_particle;
use particles::rng::SimRng;
use particles::system::{new_particle_system, spawn_grid, Command, Simulation};
use particles::vec2::Vec2;

fn cfg() -> Config {
    Config::default()
}

#[test]
fn default_config_is_accepted() {
    let c = Config::new(cfg());
    assert!(c.is_ok());
}

#[test]
fn config_rejects_bad_dimensions() {
    let mut c = cfg();
    c.width = 0;
    assert_eq!(Config::new(c), Err(ConfigError::BadDimensions));
    let mut c2 = cfg();
    c2.height = 200_000_000;
    assert_eq!(Config::new(c2), Err(ConfigError::BadDimensions));
}

#[test]
fn config_rejects_large_gravity() {
    let mut c = cfg();
    c.gravity = Vec2 { x: 0, y: 2_000_000 };
    assert_eq!(Config::new(c), Err(ConfigError::GravityTooLarge));
}

#[test]
fn config_rejects_bad_friction() {
    let mut c = cfg();
    c.friction_milli = 1001;
    assert_eq!(Config::new(c), Err(ConfigError::BadFriction));
}

#[test]
fn config_rejects_bad_energy_loss() {
    let mut c = cfg();
    c.energy_loss_milli = -1;
    assert_eq!(Config::new(c), Err(ConfigError::BadEnergyLoss));
}

#[test]
fn config_rejects_bad_radius_range() {
    let mut c = cfg();
    c.radius_min = 0;
    assert_eq!(Config::new(c), Err(ConfigError::BadRadiusRange));
    let mut c2 = cfg();
    c2.radius_max = 700_000;  // would not fit the 720_000 window height
    assert_eq!(Config::new(c2), Err(ConfigError::BadRadiusRange));
}

#[test]
fn config_rejects_bad_velocity_range() {
    let mut c = cfg();
    c.vel_min = 500;
    c.vel_max = 100;
    assert_eq!(Config::new(c), Err(ConfigError::BadVelocityRange));
}

#[test]
fn rng_is_reproducible() {
    let mut a = SimRng::new(123);
    let mut b = SimRng::new(123);
    for _ in 0..100 {
        assert_eq!(a.next_u64(), b.next_u64());
    }
    for _ in 0..100 {
        let v = a.gen_range(-50, 50);
        assert!(-50 <= v && v <= 50);
    }
}

#[test]
fn spawn_bounds_hold() {
    let c = cfg();
    let mut rng = SimRng::new(7);
    for k in 0..200 {
        let p = spawn_particle(&c, &mut rng, 640_000 + k, 360_000);
        assert!(c.vel_min <= p.vel.x && p.vel.x <= c.vel_max);
        assert!(c.vel_min <= p.vel.y && p.vel.y <= c.vel_max);
        assert!(c.radius_min <= p.mass && p.mass <= c.radius_max);
        assert_eq!(p.radius, p.mass);
        assert_eq!(p.acc, Vec2 { x: 0, y: 0 });
        assert_eq!(p.pos, Vec2 { x: 640_000 + k, y: 360_000 });
    }
}

#[test]
fn spawn_clamps_position_into_window() {
    let c = cfg();
    let mut rng = SimRng::new(9);
    let p = spawn_particle(&c, &mut rng, -44, 9_999_999);
    assert_eq!(p.pos, Vec2 { x: 0, y: c.height });
}

#[test]
fn spawn_grid_is_deterministic_for_a_seed() {
    let c = cfg();
    let a = spawn_grid(&c, 42);
    let b = spawn_grid(&c, 42);
    assert_eq!(a, b, "same seed, byte-identical particle sequence");
}

#[test]
fn spawn_grid_fills_ten_by_six() {
    let c = cfg();
    // Columns at 25_000 + 125_000 k < 1_255_000: ten of them; rows at
    // 25_000 + 125_000 k < 695_000: six. Row-major over columns first.
    let g = spawn_grid(&c, 1);
    assert_eq!(g.len(), 60);
    assert_eq!(g[0].pos, Vec2 { x: 25_000, y: 25_000 });
    assert_eq!(g[1].pos, Vec2 { x: 25_000, y: 150_000 });
    assert_eq!(g[6].pos, Vec2 { x: 150_000, y: 25_000 });
    assert_eq!(g[59].pos, Vec2 { x: 1_150_000, y: 650_000 });
}

#[test]
fn new_particle_system_spawns_a_valid_grid() {
    let c = cfg();
    let g = new_particle_system(&c);
    assert_eq!(g.len(), 60);
    for p in g.iter() {
        assert!(c.radius_min <= p.mass && p.mass <= c.radius_max);
        assert!(c.vel_min <= p.vel.x && p.vel.x <= c.vel_max);
    }
}

#[test]
fn simulation_new_matches_injected_seed() {
    let c = cfg();
    let sim = Simulation::new(c, 7);
    let g = spawn_grid(&c, 7);
    assert_eq!(sim.particles, g);
    assert_eq!(sim.cursor, Vec2 { x: 640_000, y: 360_000 });
}

#[test]
fn reset_command_regrids() {
    let c = cfg();
    let mut sim = Simulation::new(c, 7);
    sim.step_frame();
    let quit = sim.apply_command(Command::Reset);
    assert!(!quit);
    assert_eq!(sim.particles.len(), 60);
    // The generator kept advancing, so a reset differs from the first grid
    // only in the random draws, not in the grid shape.
    assert_eq!(sim.particles[0].pos, Vec2 { x: 25_000, y: 25_000 });
}

#[test]
fn spawn_at_command_appends_one_particle() {
    let c = cfg();
    let mut sim = Simulation::new(c, 7);
    let before = sim.particles.len();
    let quit = sim.apply_command(Command::SpawnAt(300_000, 200_000));
    assert!(!quit);
    assert_eq!(sim.particles.len(), before + 1);
    let p = sim.particles[sim.particles.len() - 1];
    assert_eq!(p.pos, Vec2 { x: 300_000, y: 200_000 });
    assert!(c.radius_min <= p.mass && p.mass <= c.radius_max);
}

#[test]
fn cursor_move_then_spawn_at_cursor() {
    let c = cfg();
    let mut sim = Simulation::new(c, 7);
    let quit = sim.apply_command(Command::CursorMove(111_000, 222_000));
    assert!(!quit);
    let cur = sim.cursor_pos();
    assert_eq!(cur, Vec2 { x: 111_000, y: 222_000 });
    sim.apply_command(Command::SpawnAt(cur.x, cur.y));
    let p = sim.particles[sim.particles.len() - 1];
    assert_eq!(p.pos, Vec2 { x: 111_000, y: 222_000 });
}

#[test]
fn quit_command_changes_nothing_and_quits() {
    let c = cfg();
    let mut sim = Simulation::new(c, 7);
    let before = sim.particles.clone();
    let quit = sim.apply_command(Command::Quit);
    assert!(quit);
    assert_eq!(sim.particles, before);
}

#[test]
fn minimal_window_spawns_empty_grid_and_steps_fine() {
    let mut c = cfg();
    // Exactly one diameter of the largest particle: no interior grid point.
    c.width = 50_000;
    c.height = 50_000;
    assert!(Config::new(c).is_ok());
    let g = spawn_grid(&c, 3);
    assert!(g.is_empty());
    let mut sim = Simulation::new(c, 3);
    sim.step_frame();
    assert!(sim.particles.is_empty());
    let quit = sim.apply_command(Command::SpawnAt(25_000, 25_000));
    assert!(!quit);
    assert_eq!(sim.particles.len(), 1);
    sim.step_frame();
    assert_eq!(sim.particles.len(), 1);
}

#[test]
fn frames_keep_the_system_well_formed() {
    let c = cfg();
    let mut sim = Simulation::new(c, 1234);
    for _ in 0..50 {
        sim.step_frame();
        for p in sim.particles.iter() {
            assert!(0 <= p.pos.x && p.pos.x <= c.width);
            assert!(0 <= p.pos.y && p.pos.y <= c.height);
            assert!(p.vel.x.abs() <= 1_000_000 && p.vel.y.abs() <= 1_000_000);
        }
    }
}
