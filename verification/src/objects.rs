//! The objects of the scene that react to input.

pub mod camera;
