//! The verified core of a small free-look 3D viewer: which way the camera is
//! asked to move, how input events change that, how meshes are merged into one
//! vertex stream and one index stream, and what the event loop does in answer to
//! each window-system callback.
//!
//! Everything here works on integers, booleans and sequences. Coordinates are
//! carried as IEEE-754 single-precision bit patterns and never computed with.

pub mod application;
pub mod input;
pub mod layer;
pub mod objects;
pub mod utils;
