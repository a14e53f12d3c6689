//! Escape-time fractal rendering with verified contracts: a fixed-point plane
//! transform, Mandelbrot and Julia iteration kernels, a colour mapper, a CPU
//! renderer over several buffer layouts, and a model of a GPU compute
//! dispatch lifecycle.

use vstd::prelude::*;

pub mod colouring;
pub mod common;
pub mod cpu_renderer;
pub mod fixed;
pub mod julia;
pub mod mandelbrot;
pub mod vulkan_compute;

verus! {

pub use crate::common::PlaneTransform;

/// The iteration cap used when a render request leaves it unspecified.
pub const DEFAULT_MAX_ITERATIONS: u32 = 100;

/// The iteration cap of a render request: the given value, or the default.
pub open spec fn cap_or_default(max_iterations: Option<u32>) -> u32 {
    match max_iterations {
        Some(m) => m,
        None => DEFAULT_MAX_ITERATIONS,
    }
}

/// Selects the iteration kernel; carries no runtime state.
#[derive(Clone, Copy, PartialEq, Eq, Structural, Debug)]
pub enum FractalType {
    MandelbrotSet,
    JuliaSet,
}

/// Everything the renderers report instead of doing partial work: rejected
/// preconditions and features that are recognised but not wired up.
#[derive(Clone, Copy, PartialEq, Eq, Structural, Debug)]
pub enum RenderError {
    /// The supplied buffer does not hold exactly the elements the layout
    /// needs for the requested dimensions.
    BufferSizeMismatch,
    /// A requested dimension is zero.
    ZeroDimension,
    /// The requested feature is recognised but not implemented; reported
    /// rather than producing wrong output.
    NotSupported,
}

/// Specifies the format of and holds either a pixel array or channel array.
pub enum ImageBufferFormat {
    PixelArray(PixelArrayFormat),
    ChannelArray(ChannelArrayFormat),
}

/// Specifies the format of and holds a pixel array.
pub enum PixelArrayFormat {
    Argb32(Vec<u32>),
}

/// Specifies the format of and holds a channel array.
pub enum ChannelArrayFormat {
    Argb8(Vec<u8>),
    Rgb8(Vec<u8>),
}

} // verus!
