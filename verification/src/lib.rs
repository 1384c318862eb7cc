//! Enemy-behavior core of a top-down survival action game.
//!
//! The library models the world on a fixed-point integer grid: one world unit
//! is `geom::SCALE` grid steps, and every distance, speed and damage value is
//! carried in those steps. Time is counted in integer milliseconds. On this
//! model the library provides periodic spawning of enemy archetypes on an
//! annulus around the player, cooldown timers, the Shooter's projectile flow,
//! the Sprinter's charge state machine, and the event chain that resolves
//! attacks into player damage.

pub mod animation;
pub mod behavior;
pub mod enemy;
pub mod geom;
pub mod rng;
pub mod spawn;
pub mod timer;
pub mod world;
