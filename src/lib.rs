//! Combat-and-movement simulation core of a small real-time action RPG.
//!
//! All quantities are integers: lengths in millimetres, durations in
//! milliseconds, speeds in millimetres per second.
pub mod geometry;
pub mod search;
pub mod timer;
pub mod creature;
pub mod location;
pub mod world;
pub mod combat;
pub mod error;
pub mod player;
pub mod projectile;
pub mod input;
pub mod vec;
pub mod population;
pub mod items;
