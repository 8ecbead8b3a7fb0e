//! Core of an FMCW (frequency-modulated continuous wave) radar scene
//! simulator: chirp waveform generation, beat-frequency synthesis, capture
//! windows, one-sided spectrum layout, peak detection and range-velocity
//! ambiguity lines.
//!
//! All quantities are fixed-point integers so that every stage is exact:
//! time is carried in picoseconds, frequency in hertz, range in millimeters,
//! velocity in millimeters per second, and spectrum magnitudes in caller
//! chosen fixed-point counts. The floating-point edges of a full
//! application (sine rendering of a signal and the FFT that produces the
//! magnitudes) live outside this crate; the functions here accept and
//! produce the plain integer values around them.

pub mod units;
pub mod errors;
pub mod mathutil;
pub mod config;
pub mod waveform;
pub mod beat;
pub mod grid;
pub mod spectrum;
pub mod peaks;
pub mod ambiguity;
pub mod pipeline;
