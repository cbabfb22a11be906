//! Helpers that are not part of the scene.

pub mod shaders;
