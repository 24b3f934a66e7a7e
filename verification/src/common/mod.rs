//! Value types shared by every part of the renderer.

pub mod decimal;
pub mod material;
pub mod ray;
pub mod scalar;
pub mod vec3;
