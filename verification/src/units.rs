//! Units and machine limits of the fixed-point model.
//!
//! Time is measured in picoseconds, frequency in hertz, range in
//! millimeters and velocity in millimeters per second. The limits below
//! bound the magnitudes for which the i64/i128 arithmetic of the crate is
//! proved free of overflow; they lie far outside the physically sensible
//! parameter ranges of the simulator.

use vstd::prelude::*;

verus! {

/// Speed of light, in millimeters per second (the fixed constant the whole
/// crate computes with).
pub const SPEED_OF_LIGHT_MM_PER_S: i64 = 299_999_000_000;

/// Picoseconds in one second.
pub const PS_PER_S: i64 = 1_000_000_000_000;

/// Largest frequency magnitude (Hz) the arithmetic is proved for.
pub const MAX_FREQUENCY_HZ: i64 = 1_000_000_000_000;

/// Largest single chirp duration (ps): one second.
pub const MAX_CHIRP_PS: i64 = 1_000_000_000_000;

/// Largest number of chirp segments in one configuration.
pub const MAX_CHIRP_COUNT: usize = 4096;

/// Largest velocity magnitude (mm/s) the Doppler arithmetic is proved for.
pub const MAX_VELOCITY_MM_PER_S: i64 = 100_000_000_000;

/// Largest target range (mm): a thousand kilometers.
pub const MAX_RANGE_MM: i64 = 1_000_000_000;

/// Largest sampling frequency (Hz).
pub const MAX_SAMPLING_HZ: i64 = 1_000_000_000;

/// Largest sampling duration (ps): ten milliseconds.
pub const MAX_SAMPLING_DURATION_PS: i64 = 10_000_000_000;

/// Smallest bandwidth (Hz) for which the ambiguity-line projection fits in
/// i64 millimeters.
pub const MIN_PROJECTION_BANDWIDTH_HZ: i64 = 1_000_000;

/// Largest time magnitude (ps) accepted on a time grid: about a day.
pub const MAX_TIME_PS: i64 = 100_000_000_000_000_000;

/// Largest frequency magnitude (Hz) accepted as the tone of a series or
/// the input of a Doppler shift; four times `MAX_FREQUENCY_HZ`, so that
/// every in-band waveform value and every beat value is accepted back.
pub const MAX_TONE_HZ: i64 = 4_000_000_000_000;

/// The Doppler shift of an accepted tone at an accepted velocity never
/// leaves this magnitude (Hz).
pub const DOPPLER_LIMIT_HZ: i64 = 4_100_000_000_000;

} // verus!
