//! Verified core of an instanced voxel renderer: the GPU-facing data layout
//! (instances, uniforms, index and instance buffers), the instance grid, and
//! the renderer's window-size / draw bookkeeping.
//!
//! Every single-precision float that crosses into the GPU is held here as its
//! IEEE-754 bit pattern (`u32`), so that layouts and byte images can be stated
//! and proved exactly.

pub mod linalg;
pub mod instance;
pub mod grid;
pub mod bytes;
pub mod uniforms;
pub mod state;
