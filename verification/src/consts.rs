//! Engine constants.
//!
//! Lengths are in milli-units (one game unit is 1000), velocities in
//! milli-units per second, time in milliseconds, angles in milli-radians,
//! health and blast power in milli-points.  The damage constants follow the
//! tuned values of the game rules: blast radius 20 units, shell correction
//! 25 units for bases, explosion power 50 points.

use vstd::prelude::*;

verus! {

/// Milli-units per game unit.
pub const SCALE: i64 = 1000;

/// One game unit, in milli-units (the gravity singularity guard distance).
pub const UNIT: i64 = 1000;

/// Hard bound on every coordinate, velocity and orientation component held
/// by the engine; mutations clamp into `[-MAX_COORD, MAX_COORD]`.
pub const MAX_COORD: i64 = 1_000_000_000;

/// Largest asteroid radius the registry accepts, in milli-units.
pub const MAX_RADIUS: i64 = 1_000_000;

/// Largest coordinate of an asteroid centre, in milli-units; keeps every
/// derived base position inside `MAX_COORD`.
pub const MAX_AST_COORD: i64 = 997_000_000;

/// Radius below which an asteroid is destroyed rather than shrunk (8 units).
pub const MIN_RADIUS: i64 = 8_000;

/// Most asteroids a world may hold (keeps gravity sums in bounds).
pub const MAX_ASTEROIDS: usize = 64;

/// Most bases a world may hold.
pub const MAX_BASES: usize = 64;

/// Most players a world may hold.
pub const MAX_PLAYERS: usize = 8;

/// Most live projectiles a world may hold.
pub const MAX_PROJECTILES: usize = 64;

/// Largest time step one tick may advance, in milliseconds.
pub const MAX_DT_MS: i64 = 1_000;

/// Largest bounding-box edge of a projectile, in milli-units.
pub const MAX_BOX_SIZE: i64 = 200_000;

/// Blast radius: damage falls to zero at this distance (20 units).
pub const MAX_BLAST_RADIUS: i64 = 20_000;

/// Shell correction for bases: damage falloff starts at this distance from
/// the base centre (25 units).
pub const BASE_SHELL: i64 = 25_000;

/// Explosion power of a detonating projectile, in milli-points.
pub const EXPLODE_POWER: i64 = 50_000;

/// Full health of a freshly built base, in milli-points.
pub const FULL_HEALTH: i64 = 100_000;

/// Radial inset of a base from its asteroid's surface, in milli-units
/// (negative: the base sits slightly above the surface).
pub const BASE_OFFSET: i64 = -8_500;

/// Launch offset of a projectile along the firing direction (12 units).
pub const LAUNCH_OFFSET: i64 = 12_000;

/// Least firing power, in milli-units per second.
pub const POWER_MIN: i64 = 30_000;

/// Greatest firing power, in milli-units per second.
pub const POWER_MAX: i64 = 200_000;

/// Firing power at the start of a turn, in milli-units per second.
pub const POWER_DEFAULT: i64 = 70_000;

/// Half pi in milli-radians; the firing angle is clamped to this magnitude.
pub const HALF_PI_MRAD: i64 = 1_571;

/// Pi in milli-radians, as used by the fixed-point trigonometry.
pub const PI_MRAD: i64 = 3_142;

/// Mass of an asteroid is `GRAVITY_FACTOR * radius * radius`.
pub const GRAVITY_FACTOR: i64 = 3;

/// Step of the trajectory predictor, in milliseconds (0.02 s).
pub const PREDICT_STEP_MS: i64 = 20;

/// Numerator of the per-tick orientation interpolation ratio (0.3).
pub const SLEW_NUM: i64 = 3;

/// Denominator of the per-tick orientation interpolation ratio.
pub const SLEW_DEN: i64 = 10;

} // verus!
