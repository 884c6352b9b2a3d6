//! Core of a small recursive ray tracer.
//!
//! The geometry and radiance arithmetic of the renderer work on floating-point
//! numbers and live with the program that drives this crate. What is kept here
//! is the part of the renderer that decides: which root of a ray/surface
//! quadratic is the hit, which shape is the nearest, what a shading step does
//! with its bounce budget, how a ray crosses a dielectric boundary, where a
//! pixel centre lies, which generator seed each pixel draws from, and how the
//! output frame is filled, one pixel each.

pub mod camera;
pub mod frame;
pub mod hit;
pub mod sampling;
pub mod shading;
