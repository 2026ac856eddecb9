//! Raster image generation for an escape-time fractal renderer and a
//! checkerboard pattern generator.
//!
//! The library owns the discrete core of the pipeline: the fixed color
//! palette and its stop selection, the checkerboard cell classification,
//! the pixel-coordinate ranges of the viewport, the assembly of row-major
//! RGB byte buffers, and the encoding of a finished buffer as a PNG stream.
//! The continuous per-pixel arithmetic (escape-time iteration, gamma-correct
//! channel blending, tiling-period tests) is floating point and is supplied
//! by the caller as plain values: a finiteness flag and bracketing stop
//! indices for the palette path, a pair of half-period classifications for
//! the checkerboard path.

pub mod checker;
pub mod color;
pub mod palette;
pub mod raster;
pub mod viewport;
