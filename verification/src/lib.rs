//! Real-time combat core for a first-person shooter: projectile spawning and
//! lifetime management, hit detection and damage resolution, recoil-driven
//! camera perturbation, and an aim-down-sights state machine.
//!
//! All continuous quantities (seconds, world units, radians, scalars in
//! `[0, 1]`) are held in fixed point, one unit being one million micro-units,
//! so that every per-tick integration step is exact integer arithmetic.

pub mod aim;
pub mod camera;
pub mod combat;
pub mod movement;
pub mod projectile;
pub mod recoil;
pub mod session;
pub mod shooter;
pub mod timer;
pub mod vecfx;
