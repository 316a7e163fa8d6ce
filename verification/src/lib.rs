pub mod amplitude;
pub mod canvas;
pub mod duration;
pub mod geometry;
pub mod render;

use vstd::prelude::*;

verus! {

/// Failure modes of a render, reported to the caller instead of panicking.
#[derive(Clone, Copy, Debug, PartialEq, Eq, Structural)]
pub enum RenderError {
    /// The sample buffer was empty, so no peak amplitude exists.
    EmptyInput,
    /// The accumulated peak amplitude was zero (for example, silent audio),
    /// so the normalization scale would be unbounded.
    DegenerateAmplitude,
    /// A requested dimension was zero or too large for the pixel buffer.
    InvalidDimensions,
}

} // verus!
