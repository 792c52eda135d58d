//! The particle system: deterministic grid spawning from an injected seed,
//! the per-frame pipeline (integrate, then resolve collisions), and the
//! command surface the input shell drives.

use vstd::prelude::*;
use crate::collision::{handle_collisions, resolve_all};
use crate::config::Config;
use crate::integrator::{handle_kinematics, step_all};
use crate::particle::{
    particle_ok, spawn_particle, spawn_particle_spec, state_after_spawn, Particle,
};
use crate::rng::SimRng;
use crate::vec2::Vec2;

verus! {

/// Grid points of one column at `x`, from `y` down the window, spaced five
/// maximal radii apart, stopping one maximal radius short of the wall.
pub open spec fn col_pts(cfg: Config, x: i64, y: i64) -> Seq<Vec2>
    decreases cfg.height + 5 * cfg.radius_max - y,
{
    if !cfg.valid() || y >= cfg.height - cfg.radius_max {
        Seq::empty()
    } else {
        seq![Vec2 { x: x, y: y }] + col_pts(cfg, x, (y + 5 * cfg.radius_max) as i64)
    }
}

/// Grid columns from `x` rightward, spaced five maximal radii apart.
pub open spec fn pts_from(cfg: Config, x: i64) -> Seq<Vec2>
    decreases cfg.width + 5 * cfg.radius_max - x,
{
    if !cfg.valid() || x >= cfg.width - cfg.radius_max {
        Seq::empty()
    } else {
        col_pts(cfg, x, cfg.radius_max) + pts_from(cfg, (x + 5 * cfg.radius_max) as i64)
    }
}

/// All grid spawn points, in the order they are filled.
pub open spec fn grid_points(cfg: Config) -> Seq<Vec2> {
    pts_from(cfg, cfg.radius_max)
}

/// Particles spawned at `pts[k..]`, threading the generator state.
pub open spec fn spawn_from(cfg: Config, pts: Seq<Vec2>, k: int, s: u64) -> Seq<Particle>
    decreases pts.len() - k,
{
    if k < 0 || k >= pts.len() {
        Seq::empty()
    } else {
        seq![spawn_particle_spec(cfg, s, pts[k].x, pts[k].y)] + spawn_from(
            cfg,
            pts,
            k + 1,
            state_after_spawn(s),
        )
    }
}

/// Generator state after spawning at `pts[k..]`.
pub open spec fn state_after_spawns(pts: Seq<Vec2>, k: int, s: u64) -> u64
    decreases pts.len() - k,
{
    if k < 0 || k >= pts.len() {
        s
    } else {
        state_after_spawns(pts, k + 1, state_after_spawn(s))
    }
}

/// The whole grid-spawned system, as a function of configuration and seed.
pub open spec fn grid_spec(cfg: Config, seed: u64) -> Seq<Particle> {
    spawn_from(cfg, grid_points(cfg), 0, seed)
}

/// Determinism: the grid spawn is a pure function of the configuration and
/// the injected seed, so two spawns from the same seed agree exactly.
pub proof fn lemma_spawn_grid_deterministic(
    cfg: Config,
    seed: u64,
    a: Seq<Particle>,
    b: Seq<Particle>,
)
    requires
        a == grid_spec(cfg, seed),
        b == grid_spec(cfg, seed),
    ensures
        a == b,
{
}

/// The grid spawn points, materialized in fill order.
fn grid_points_vec(cfg: &Config) -> (pts: Vec<Vec2>)
    requires
        cfg.valid(),
    ensures
        pts@ == grid_points(*cfg),
{
    let mut pts: Vec<Vec2> = Vec::new();
    let step: i64 = 5 * cfg.radius_max;
    let mut x: i64 = cfg.radius_max;
    while x < cfg.width - cfg.radius_max
        invariant
            cfg.valid(),
            step == 5 * cfg.radius_max,
            cfg.radius_max <= x <= cfg.width + 5 * cfg.radius_max,
            grid_points(*cfg) == pts@ + pts_from(*cfg, x),
        decreases cfg.width + 5 * cfg.radius_max - x,
    {
        let mut y: i64 = cfg.radius_max;
        proof {
            assert(pts_from(*cfg, x) == col_pts(*cfg, x, cfg.radius_max) + pts_from(
                *cfg,
                (x + 5 * cfg.radius_max) as i64,
            ));
        }
        while y < cfg.height - cfg.radius_max
            invariant
                cfg.valid(),
                step == 5 * cfg.radius_max,
                cfg.radius_max <= x < cfg.width - cfg.radius_max,
                cfg.radius_max <= y <= cfg.height + 5 * cfg.radius_max,
                grid_points(*cfg) == pts@ + col_pts(*cfg, x, y) + pts_from(
                    *cfg,
                    (x + step) as i64,
                ),
            decreases cfg.height + 5 * cfg.radius_max - y,
        {
            let ghost before = pts@;
            pts.push(Vec2 { x, y });
            proof {
                assert(col_pts(*cfg, x, y) == seq![Vec2 { x: x, y: y }] + col_pts(
                    *cfg,
                    x,
                    (y + 5 * cfg.radius_max) as i64,
                ));
                assert(before + col_pts(*cfg, x, y) =~= pts@ + col_pts(
                    *cfg,
                    x,
                    (y + 5 * cfg.radius_max) as i64,
                ));
            }
            y = y + step;
        }
        proof {
            assert(col_pts(*cfg, x, y) == Seq::<Vec2>::empty());
            assert(pts@ + col_pts(*cfg, x, y) =~= pts@);
        }
        x = x + step;
    }
    proof {
        assert(pts_from(*cfg, x) == Seq::<Vec2>::empty());
        assert(pts@ + pts_from(*cfg, x) =~= pts@);
    }
    pts
}

/// Spawn the whole grid using (and advancing) the given generator.
fn spawn_grid_using(cfg: &Config, rng: &mut SimRng) -> (out: Vec<Particle>)
    requires
        cfg.valid(),
    ensures
        out@ == spawn_from(*cfg, grid_points(*cfg), 0, old(rng).state),
        final(rng).state == state_after_spawns(grid_points(*cfg), 0, old(rng).state),
        forall|i: int| 0 <= i < out@.len() ==> particle_ok(#[trigger] out@[i], *cfg),
{
    let pts = grid_points_vec(cfg);
    let ghost s0 = rng.state;
    let mut out: Vec<Particle> = Vec::new();
    let mut k: usize = 0;
    while k < pts.len()
        invariant
            cfg.valid(),
            pts@ == grid_points(*cfg),
            k <= pts@.len(),
            out@.len() == k,
            spawn_from(*cfg, pts@, 0, s0) == out@ + spawn_from(*cfg, pts@, k as int, rng.state),
            state_after_spawns(pts@, 0, s0) == state_after_spawns(pts@, k as int, rng.state),
            forall|i: int| 0 <= i < out@.len() ==> particle_ok(#[trigger] out@[i], *cfg),
        decreases pts@.len() - k,
    {
        let ghost before = out@;
        let ghost s_here = rng.state;
        let pt = pts[k];
        let p = spawn_particle(cfg, rng, pt.x, pt.y);
        out.push(p);
        proof {
            assert(spawn_from(*cfg, pts@, k as int, s_here) == seq![p] + spawn_from(
                *cfg,
                pts@,
                k as int + 1,
                rng.state,
            ));
            assert(before + spawn_from(*cfg, pts@, k as int, s_here) =~= out@ + spawn_from(
                *cfg,
                pts@,
                k as int + 1,
                rng.state,
            ));
        }
        k = k + 1;
    }
    proof {
        assert(spawn_from(*cfg, pts@, k as int, rng.state) == Seq::<Particle>::empty());
        assert(out@ + spawn_from(*cfg, pts@, k as int, rng.state) =~= out@);
    }
    out
}

/// Fill a regular grid over the window interior with freshly spawned
/// particles, reproducibly from the injected seed.
pub fn spawn_grid(cfg: &Config, seed: u64) -> (out: Vec<Particle>)
    requires
        cfg.valid(),
    ensures
        out@ == grid_spec(*cfg, seed),
        forall|i: int| 0 <= i < out@.len() ==> particle_ok(#[trigger] out@[i], *cfg),
{
    let mut rng = SimRng::new(seed);
    spawn_grid_using(cfg, &mut rng)
}

/// Relies on rand::random::<u64>: a seed from the thread-local generator;
/// nothing is assumed about the value.
#[verifier::external_body]
fn fresh_seed() -> u64 {
    rand::random::<u64>()
}

/// A grid-spawned system from a fresh, unpredictable seed. Whatever seed
/// came back, the result is some seed's deterministic grid.
pub fn new_particle_system(cfg: &Config) -> (out: Vec<Particle>)
    requires
        cfg.valid(),
    ensures
        exists|s: u64| out@ == grid_spec(*cfg, s),
        forall|i: int| 0 <= i < out@.len() ==> particle_ok(#[trigger] out@[i], *cfg),
{
    let seed = fresh_seed();
    let out = spawn_grid(cfg, seed);
    proof {
        assert(out@ == grid_spec(*cfg, seed));
    }
    out
}

/// The command surface the input shell delivers between frames.
#[derive(Clone, Copy, PartialEq, Eq, Structural, Debug)]
pub enum Command {
    /// Replace every particle with a fresh grid.
    Reset,
    /// Append one particle at the given position.
    SpawnAt(i64, i64),
    /// Track the cursor.
    CursorMove(i64, i64),
    /// Stop the event loop.
    Quit,
}

/// The whole simulation: configuration, injected random source, the owned
/// particle collection, and the tracked cursor.
pub struct Simulation {
    pub config: Config,
    pub rng: SimRng,
    pub particles: Vec<Particle>,
    pub cursor: Vec2,
}

impl Simulation {
    /// Every particle is well formed under a valid configuration.
    pub open spec fn wf(self) -> bool {
        &&& self.config.valid()
        &&& forall|i: int|
            0 <= i < self.particles@.len() ==> particle_ok(
                #[trigger] self.particles@[i],
                self.config,
            )
    }

    /// A simulation whose particles are the seed's grid and whose cursor
    /// starts at the window center.
    pub fn new(config: Config, seed: u64) -> (sim: Simulation)
        requires
            config.valid(),
        ensures
            sim.wf(),
            sim.config == config,
            sim.particles@ == grid_spec(config, seed),
            sim.cursor.x == config.width / 2,
            sim.cursor.y == config.height / 2,
    {
        let mut rng = SimRng::new(seed);
        let particles = spawn_grid_using(&config, &mut rng);
        let cx = ((config.width as u64) / 2) as i64;
        let cy = ((config.height as u64) / 2) as i64;
        Simulation { config, rng, particles, cursor: Vec2 { x: cx, y: cy } }
    }

    /// One frame of physics: integrate every particle, then resolve
    /// collisions.
    pub fn step_frame(&mut self)
        requires
            old(self).wf(),
        ensures
            final(self).wf(),
            final(self).particles@ == resolve_all(
                step_all(old(self).particles@, old(self).config),
                old(self).config,
            ),
            final(self).config == old(self).config,
            final(self).rng == old(self).rng,
            final(self).cursor == old(self).cursor,
    {
        let cfg = self.config;
        handle_kinematics(&mut self.particles, &cfg);
        handle_collisions(&mut self.particles, &cfg);
    }

    /// Apply one command between frames; returns whether to quit.
    pub fn apply_command(&mut self, cmd: Command) -> (quit: bool)
        requires
            old(self).wf(),
        ensures
            final(self).wf(),
            final(self).config == old(self).config,
            quit <==> cmd == Command::Quit,
            cmd == Command::Reset ==> {
                &&& final(self).particles@ == spawn_from(
                    old(self).config,
                    grid_points(old(self).config),
                    0,
                    old(self).rng.state,
                )
                &&& final(self).rng.state == state_after_spawns(
                    grid_points(old(self).config),
                    0,
                    old(self).rng.state,
                )
                &&& final(self).cursor == old(self).cursor
            },
            forall|x: i64, y: i64|
                cmd == Command::SpawnAt(x, y) ==> {
                    &&& final(self).particles@ == old(self).particles@.push(
                        spawn_particle_spec(old(self).config, old(self).rng.state, x, y),
                    )
                    &&& final(self).rng.state == state_after_spawn(old(self).rng.state)
                    &&& final(self).cursor == old(self).cursor
                },
            forall|x: i64, y: i64|
                cmd == Command::CursorMove(x, y) ==> {
                    &&& final(self).cursor == (Vec2 { x, y })
                    &&& final(self).particles == old(self).particles
                    &&& final(self).rng == old(self).rng
                },
            cmd == Command::Quit ==> *final(self) == *old(self),
    {
        match cmd {
            Command::Reset => {
                let cfg = self.config;
                self.particles = spawn_grid_using(&cfg, &mut self.rng);
                false
            },
            Command::SpawnAt(x, y) => {
                let cfg = self.config;
                let p = spawn_particle(&cfg, &mut self.rng, x, y);
                self.particles.push(p);
                false
            },
            Command::CursorMove(x, y) => {
                self.cursor = Vec2 { x, y };
                false
            },
            Command::Quit => true,
        }
    }

    /// The tracked cursor position, for the click-to-spawn path.
    pub fn cursor_pos(&self) -> (c: Vec2)
        ensures
            c == self.cursor,
    {
        self.cursor
    }
}

} // verus!
