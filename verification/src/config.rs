//! Simulation configuration: window dimensions, world constants (gravity,
//! friction, collision energy loss) and the spawn ranges for particle mass
//! and initial velocity. Invalid configurations are rejected at startup.

use vstd::prelude::*;
use crate::vec2::Vec2;

verus! {

/// Upper bound on window dimensions, in library length units.
pub const DIM_LIMIT: i64 = 100_000_000;

/// Upper bound on particle radii.
pub const RADIUS_LIMIT: i64 = 1_000_000;

/// Upper bound on particle masses.
pub const MASS_LIMIT: i64 = 1_000_000;

/// Defensive cap on the magnitude of each velocity component.
pub const VEL_LIMIT: i64 = 1_000_000;

/// Defensive cap on the magnitude of each acceleration component.
pub const ACC_LIMIT: i64 = 1_000_000;

/// Denominator of the per-mille factors (friction, energy loss).
pub const MILLI: i64 = 1000;

/// Fixed-point resolution: library length units per pixel. Quantities that
/// multiply two lengths (the positional correction) divide by this to stay
/// faithful to the pixel-valued original.
pub const UNITS_PER_PIXEL: i64 = 1000;

#[derive(Clone, Copy, PartialEq, Eq, Structural, Debug)]
pub struct Config {
    /// Window width and height.
    pub width: i64,
    pub height: i64,
    /// Acceleration added to every particle each step.
    pub gravity: Vec2,
    /// Friction factor in per mille: each step scales the previous
    /// acceleration by `-friction_milli / 1000`.
    pub friction_milli: i64,
    /// Energy kept by a collision, in per mille; `1000` is lossless.
    pub energy_loss_milli: i64,
    /// Range of spawned masses (the spawned radius equals the mass).
    pub radius_min: i64,
    pub radius_max: i64,
    /// Range of each spawned velocity component.
    pub vel_min: i64,
    pub vel_max: i64,
}

/// Reasons a configuration is rejected at startup.
#[derive(Clone, Copy, PartialEq, Eq, Structural, Debug)]
pub enum ConfigError {
    /// A window dimension is not positive or exceeds `DIM_LIMIT`.
    BadDimensions,
    /// A gravity component exceeds `ACC_LIMIT` in magnitude.
    GravityTooLarge,
    /// `friction_milli` is outside `[0, 1000]`.
    BadFriction,
    /// `energy_loss_milli` is outside `[0, 1000]`.
    BadEnergyLoss,
    /// The radius range is empty, not positive, over `RADIUS_LIMIT`, or a
    /// largest particle would not fit between opposite walls.
    BadRadiusRange,
    /// The velocity range is empty, negative, or over `VEL_LIMIT`.
    BadVelocityRange,
}

impl Config {
    /// All invariants the physics core relies on.
    pub open spec fn valid(self) -> bool {
        &&& 0 < self.width <= DIM_LIMIT
        &&& 0 < self.height <= DIM_LIMIT
        &&& -ACC_LIMIT <= self.gravity.x <= ACC_LIMIT
        &&& -ACC_LIMIT <= self.gravity.y <= ACC_LIMIT
        &&& 0 <= self.friction_milli <= MILLI
        &&& 0 <= self.energy_loss_milli <= MILLI
        &&& 0 < self.radius_min <= self.radius_max <= RADIUS_LIMIT
        &&& 2 * self.radius_max <= self.width
        &&& 2 * self.radius_max <= self.height
        &&& 0 <= self.vel_min <= self.vel_max <= VEL_LIMIT
    }

    /// The first check a candidate fails, if any; mirrored by `new`.
    pub open spec fn spec_check(c: Config) -> Option<ConfigError> {
        if !(0 < c.width <= DIM_LIMIT && 0 < c.height <= DIM_LIMIT) {
            Some(ConfigError::BadDimensions)
        } else if !(-ACC_LIMIT <= c.gravity.x <= ACC_LIMIT && -ACC_LIMIT <= c.gravity.y
            <= ACC_LIMIT) {
            Some(ConfigError::GravityTooLarge)
        } else if !(0 <= c.friction_milli <= MILLI) {
            Some(ConfigError::BadFriction)
        } else if !(0 <= c.energy_loss_milli <= MILLI) {
            Some(ConfigError::BadEnergyLoss)
        } else if !(0 < c.radius_min <= c.radius_max <= RADIUS_LIMIT && 2 * c.radius_max <= c.width
            && 2 * c.radius_max <= c.height) {
            Some(ConfigError::BadRadiusRange)
        } else if !(0 <= c.vel_min <= c.vel_max <= VEL_LIMIT) {
            Some(ConfigError::BadVelocityRange)
        } else {
            None
        }
    }

    /// Validating constructor: accepts a candidate exactly when every
    /// invariant holds, and otherwise reports the first failing check.
    pub fn new(candidate: Config) -> (r: Result<Config, ConfigError>)
        ensures
            candidate.valid() <==> r is Ok,
            r is Ok ==> r->Ok_0 == candidate,
            r is Err ==> Some(r->Err_0) == Config::spec_check(candidate),
    {
        let c = candidate;
        if !(0 < c.width && c.width <= DIM_LIMIT && 0 < c.height && c.height <= DIM_LIMIT) {
            Err(ConfigError::BadDimensions)
        } else if !(-ACC_LIMIT <= c.gravity.x && c.gravity.x <= ACC_LIMIT && -ACC_LIMIT
            <= c.gravity.y && c.gravity.y <= ACC_LIMIT) {
            Err(ConfigError::GravityTooLarge)
        } else if !(0 <= c.friction_milli && c.friction_milli <= MILLI) {
            Err(ConfigError::BadFriction)
        } else if !(0 <= c.energy_loss_milli && c.energy_loss_milli <= MILLI) {
            Err(ConfigError::BadEnergyLoss)
        } else if !(0 < c.radius_min && c.radius_min <= c.radius_max && c.radius_max <= RADIUS_LIMIT
            && 2 * c.radius_max <= c.width && 2 * c.radius_max <= c.height) {
            Err(ConfigError::BadRadiusRange)
        } else if !(0 <= c.vel_min && c.vel_min <= c.vel_max && c.vel_max <= VEL_LIMIT) {
            Err(ConfigError::BadVelocityRange)
        } else {
            Ok(c)
        }
    }
}

/// The demo constants: a 1280 x 720 window at 1000 units per pixel, no
/// gravity, no friction, lossless collisions, radii (and masses) between 5
/// and 25 pixels, spawn velocities between 0.01 and 1 pixel per step.
impl Default for Config {
    fn default() -> (c: Config)
        ensures
            c == (Config {
                width: 1_280_000,
                height: 720_000,
                gravity: Vec2 { x: 0, y: 0 },
                friction_milli: 0,
                energy_loss_milli: 1000,
                radius_min: 5_000,
                radius_max: 25_000,
                vel_min: 10,
                vel_max: 1_000,
            }),
            c.valid(),
    {
        Config {
            width: 1_280_000,
            height: 720_000,
            gravity: Vec2 { x: 0, y: 0 },
            friction_milli: 0,
            energy_loss_milli: 1000,
            radius_min: 5_000,
            radius_max: 25_000,
            vel_min: 10,
            vel_max: 1_000,
        }
    }
}

} // verus!
