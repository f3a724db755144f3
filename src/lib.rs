//! Verified core of a small textured-mesh renderer: the mesh and its vertex
//! layout, the texture upload layout, and the renderer's frame-state machine.
//! The GPU calls themselves are made by the program around this library.
use vstd::prelude::*;

pub mod mesh;
pub mod pipeline;
pub mod state;
pub mod texture;
pub mod vertex;

verus! {

} // verus!
