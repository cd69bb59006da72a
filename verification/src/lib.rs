//! Combat core of a turn-based, two-player orbital artillery game.
//!
//! Players occupy bases fixed to the surface of asteroids and fire
//! projectiles whose trajectories are bent by the gravity of nearby
//! asteroids.  This crate holds the simulation engine only: gravity-driven
//! projectile kinematics, collision detection, damage and destruction
//! resolution, the turn/phase state machine, and the trajectory predictor
//! used for aim preview.  Rendering, input decoding and window plumbing are
//! left to the caller, which submits already-decoded intents and consumes
//! the events the engine emits.
//!
//! All continuous quantities are carried in fixed-point integers: lengths
//! in milli-units, angles in milli-radians, time in milliseconds, health in
//! milli-points.  Every formula is stated exactly over mathematical
//! integers in the contracts, so the whole engine is deterministic and
//! verified end to end.

pub mod consts;
pub mod damage;
pub mod entities;
pub mod events;
pub mod fxp;
pub mod game;
pub mod geom;
pub mod gravity;
pub mod player;
pub mod predict;
pub mod sim;
pub mod turn;
pub mod vec2;
pub mod weapon;
