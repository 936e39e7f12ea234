//! A small Monte Carlo ray tracer over exact fixed-point arithmetic.
//!
//! Geometry, colors and ray parameters are stored as signed 64-bit
//! integers scaled by one million, so every arithmetic step has an
//! exact mathematical description and the whole radiance pipeline is
//! deterministic given the stream of random draws it consumes.

pub mod camera;
pub mod color;
pub mod fx;
pub mod hittable;
pub mod material;
pub mod ray;
pub mod render;
pub mod rng;
pub mod sphere;
pub mod vector;
