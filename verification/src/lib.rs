//! The decision core of a Monte Carlo path tracer for scenes of spheres.
//!
//! Numbers are IEEE 754 binary64 values carried as their bit patterns (see
//! [`common::scalar::Scalar`]). Everything the renderer *decides* is here and
//! is verified: how two values compare, which root of a sphere's quadratic is
//! the hit, which way a normal faces, which object in a scene is nearest,
//! whether a material scatters or absorbs, when a path ends, and what integer
//! a finished colour channel becomes. Arithmetic on the values (sums,
//! products, roots, trigonometry) and the drawing of random numbers are the
//! caller's part: each function takes the numbers it needs as arguments.
//!
//! - [`common`]: scalars, vectors, rays, materials, decimal text.
//! - [`hittable`]: hit records, spheres, scenes, and the trait they share.
//! - [`integrator`]: what a ray brings back, bounce by bounce.
//! - [`scene`]: the choices made while a random scene is laid out.
//! - [`image`]: the header of the image file.

pub mod common;
pub mod hittable;
pub mod image;
pub mod integrator;
pub mod scene;
