//! Core of an off-screen rasterization engine.
//!
//! The engine turns a vector scene (a view box plus drawable content) into an
//! in-memory RGBA8 pixel buffer through a headless GPU context.  This crate
//! holds the verified decision core of that engine: the geometry that maps a
//! scene's view box to device pixels, the size-keyed renderer cache that
//! decides when a GPU target must be (re)allocated, and the packaging of the
//! raw readback bytes into an exact-size image.  The GPU itself (display
//! connection, device, draw calls, readback) is driven by an unverified shell
//! that executes the actions this core plans.

use vstd::prelude::*;

pub mod cache;
pub mod geom;
pub mod pixels;
pub mod pipeline;

verus! {

/// Failures of the rasterization engine.
#[derive(Clone, Copy, Debug, PartialEq, Eq, Structural)]
pub enum RasterError {
    /// Display, configuration, surface or context acquisition failed, or the
    /// context could not be made current.  Fatal: the engine cannot be used.
    ContextInit,
    /// A GPU device, texture or framebuffer allocation failed.  Fatal for the
    /// call; never retried.
    Allocation,
    /// The readback did not return an 8-bit-per-channel RGBA buffer of the
    /// expected length.  Only that one format is supported.
    UnsupportedPixelFormat,
    /// The scene's view box is degenerate: a negative size, or a coordinate
    /// out of the range the engine accepts.
    InvalidScene,
}

} // verus!
