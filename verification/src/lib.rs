//! Flocking simulation in exact fixed-point arithmetic.
//!
//! A fixed population of birds moves inside a cubic box. On every tick each
//! bird is steered by separation, alignment and cohesion with respect to its
//! neighbours, pulled down by gravity, pushed back from the walls, and then
//! integrated one step. All quantities are integers counted in millionths of
//! a world unit, so every result is exact and reproducible.

pub mod fixed;
pub mod config;
pub mod bird;
pub mod steering;
pub mod flock;
pub mod source;
pub mod laws;

pub use crate::bird::{Axis, Bird, Vec3};
pub use crate::config::{Config, ConfigError};
pub use crate::flock::Flock;
