//! Error kinds surfaced by the pipeline before any computation proceeds.

use vstd::prelude::*;

verus! {

/// A validation failure, returned as a typed error to the caller.
#[derive(Clone, Copy, Debug, PartialEq, Eq, Structural)]
pub enum RadarError {
    /// Empty or non-positive chirp durations, a non-positive carrier,
    /// bandwidth, sampling frequency or sampling duration, or a derived
    /// sample count below two.
    InvalidConfig,
    /// An empty signal handed to spectral analysis.
    InvalidInput,
    /// A velocity at or beyond the speed of light: the Doppler term has a
    /// division singularity there.
    NumericDegeneracy,
}

} // verus!
