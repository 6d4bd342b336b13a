//! Core logic of a minimal triangle-rendering demo.
//!
//! The crate models the decisions the demo makes — how a vertex record is
//! described to the graphics pipeline, how a shader build succeeds or fails,
//! and what one iteration of the frame loop does — as verified functions over
//! plain values. The window, the GL context and every native call live in the
//! surrounding application, which feeds their outcomes to this library.

use vstd::prelude::*;

pub mod data;
pub mod frame;
pub mod gl_handle;
pub mod report;
pub mod setup;
pub mod shader;

verus! {

/// Number of vertices in the triangle the demo draws.
pub const TRIANGLE_VERTEX_COUNT: u32 = 3;

} // verus!
