//! Compilation of tensor addressing logic and loop structure into C-like
//! kernel source text: shape/stride views with zero-copy layout
//! transformations, a small register IR with builders, and a deterministic
//! renderer.

pub mod ir;
pub mod op;
pub mod render;
pub mod samples;
pub mod text;
pub mod tracked_shape;
pub mod utils;
pub mod view;
