//! Simulation core of a fixed-tick arena shooter: rigid-body integration,
//! sphere-collider collision resolution, projectile combat, zombie steering,
//! a spawner, and the game-phase state machine.
//!
//! All quantities are fixed-point integers in milli-units: 1000 equals one
//! world unit (metre, second, hit point). Every simulation value is kept
//! within `SIM_LIMIT`; additions saturate there, so the arithmetic is total.

pub mod collision;
pub mod fixp;
pub mod game_state;
pub mod motion;
pub mod physics;
pub mod player;
pub mod vec3;
pub mod weapons;
pub mod world;
pub mod zombies;
