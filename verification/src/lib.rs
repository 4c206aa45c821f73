//! Decision core of a sphere path tracer.
//!
//! The numeric work of a renderer (vector algebra, square roots, random
//! draws) is done by the caller. This crate holds the rules that turn the
//! results of that work into decisions: which root of a quadratic counts as
//! an intersection, which member of a scene is nearest, what a material does
//! with a ray, and when a light path ends.
//!
//! A number is handed in as an ordered key: a signed integer, made from the
//! number's bit pattern, that is smaller than another key exactly when the
//! number is smaller than the other number.

pub mod key;
pub mod interval;
pub mod sphere;
pub mod scene;
pub mod material;
pub mod integrator;
pub mod sampling;
