//! Decision core of a Monte Carlo path tracer.
//!
//! Scalars travel through this crate as IEEE-754 single-precision bit
//! patterns, so that every comparison the renderer makes is an exact fact
//! about integers. The arithmetic on the numbers themselves and the image
//! file writer belong to the caller; the random source is a seeded stream
//! that the caller hands to whatever needs chance.

pub mod scalar;
pub mod vector;
pub mod ray;
pub mod object;
pub mod material;
pub mod world;
pub mod layout;
pub mod image;
pub mod integrator;
pub mod sampling;
pub mod error;
