//! A flocking (boids) update kernel over fixed-point coordinates.
//!
//! All quantities (positions, velocities, radii, strengths, time steps)
//! are signed 64-bit fixed-point numbers with 16 fractional bits: the
//! value `v` stands for the real number `v / 65536`. Arithmetic saturates
//! at the `i64` range instead of wrapping, and every stage of the kernel
//! carries a contract that pins its result down exactly.

pub mod boids;
pub mod fixed;
pub mod laws;
pub mod rand;
pub mod vec2;
