//! The decisions of a small Monte-Carlo path tracer, proved.
//!
//! A path tracer spends its time on floating-point arithmetic: solving
//! quadratics, normalising vectors, blending colours. This crate holds what
//! lies between those computations: which root of a quadratic is the hit,
//! which of many hits is the nearest, which way a normal faces, whether a
//! surface scatters or absorbs, when a light path ends, and where each pixel
//! goes in the frame buffer. Scalars pass through as IEEE-754 bit patterns
//! and are only compared, negated and selected, all of which is exact.

use vstd::prelude::*;

pub mod frame;
pub mod geometry;
pub mod material;
pub mod scalar;
pub mod scene;
pub mod tracing;
pub mod vector;

verus! {

/// Width of the rendered image in pixels.
pub const WIDTH: u32 = 800;

/// Height of the rendered image in pixels: sixteen by nine.
pub const HEIGHT: u32 = 450;

/// Rays averaged for each pixel.
pub const SAMPLES: usize = 50;

/// Rays traced along one light path at most.
pub const MAX_DEPTH: usize = 100;

} // verus!
