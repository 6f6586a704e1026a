//! Deterministic, seed-driven level generation for a 2D side-scrolling
//! platformer.
//!
//! The crate has two cooperating parts: a seeded pseudo-random generator
//! that derives an independent, reproducible stream per level index, and a
//! level layout builder that turns that stream into a terrain height
//! profile, merged rectangular collision regions, enemy and powerup spawn
//! points, and start/finish markers. Everything downstream of the random
//! draws is pure and fully specified, so a seed and a level number pin the
//! whole layout.

pub mod colliders;
pub mod generator;
pub mod level;
pub mod profile;
pub mod session;
pub mod spawns;
