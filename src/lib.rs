//! The decision logic of a real-time 3D scene renderer, verified.
//!
//! The renderer keeps per-entity GPU resources (instance buffers, material bundles) in step
//! with scene data, runs a frame through a fixed sequence of passes against shared colour
//! and depth targets, and keeps those targets consistent with the window size and the
//! multisample count. This crate decides what to create, rewrite, draw and present; the
//! caller carries the decisions out on the GPU.
//!
//! Floating-point scene values (transforms, colours, alpha) are held as the bit patterns of
//! single-precision floats, so that the rules that read them can be stated exactly.

use vstd::prelude::*;

pub mod camera;
pub mod depth;
pub mod draw;
pub mod frame;
pub mod layout;
pub mod light;
pub mod model;
pub mod passes;
pub mod pipeline;
pub mod scene;
pub mod shapes;
pub mod surface;
pub mod texture;
pub mod ui;

verus! {

} // verus!
