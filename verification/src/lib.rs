//! A verified core for a small side-scrolling arcade game: a bird falls under
//! gravity and flaps upward on input while a fixed ring of paired pipe
//! obstacles scrolls past; hitting a pipe or the floor resets the bird and
//! regenerates the field.
//!
//! All world coordinates are fixed-point integers:
//! positions are measured in micro-units (one world unit is 1_000_000),
//! velocities in milli-units per second, and time deltas in milliseconds,
//! so that `position += velocity * dt` is exact integer arithmetic.

pub mod arith;
pub mod bird;
pub mod config;
pub mod obstacles;
pub mod rng;
pub mod sim;
