//! A small camera-controlled, textured triangle-fan renderer, organised
//! around a typed resource table and a two-phase (prepare, then paint)
//! per-frame protocol.
//!
//! The library verifies the orchestration logic: which resources the table
//! holds, what the controller flags become after an input poll, what bytes
//! the camera uniform carries, which pixels a texture stages, and the exact
//! order of the commands a frame records into a render pass. The GPU device,
//! the windowing host and the floating-point camera algebra sit outside it
//! and consume the plain values it produces.

pub mod camera;
pub mod renderer;
pub mod texture;
