//! A small offline path tracer, verified with Verus.
//!
//! The renderer works over a saturating fixed-point number type ([`fixed::Fx`],
//! 16 fractional bits), so every arithmetic step has an exact, machine-checked
//! meaning.  The scene is a tree of spheres over an indexed material registry;
//! rendering intersects camera rays against the scene, scatters them off
//! materials, and accumulates tone-mapped pixel values into an integer buffer.
//!
//! Host concerns (parallel scanline dispatch, image encoding, progress
//! reporting) live outside this crate; the library exposes the pure rendering
//! pipeline with contracts.

pub mod camera;
pub mod color;
pub mod fixed;
pub mod geometry;
pub mod material;
pub mod rng;
pub mod sampling;
pub mod tracer;
pub mod vec3;
