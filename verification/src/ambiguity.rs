//! Ambiguity-line projection: inverting the beat-frequency equation. A
//! single beat measurement under one chirp slope cannot separately
//! resolve range and velocity; each detected peak therefore yields the
//! straight segment of all `(range, velocity)` hypotheses between the two
//! ends of a fixed velocity search interval.

use vstd::prelude::*;
use crate::beat::{doppler_shift, doppler_shift_spec};
use crate::mathutil::{div_floor_i128, lemma_div_at_least, lemma_div_below};
use crate::units::{
    MAX_CHIRP_PS, MAX_FREQUENCY_HZ, MAX_TONE_HZ, MAX_VELOCITY_MM_PER_S,
    MIN_PROJECTION_BANDWIDTH_HZ, PS_PER_S, SPEED_OF_LIGHT_MM_PER_S,
};

verus! {

/// One locus of `(range, velocity)` hypotheses consistent with a measured
/// beat frequency: a segment between the projections at the two ends of
/// the velocity search interval. Ranges in mm, velocities in mm/s.
#[derive(Clone, Copy, Debug, PartialEq, Eq, Structural)]
pub struct AmbiguityLine {
    /// Projected range at the lower search velocity.
    pub range_a: i64,
    /// Negated lower search velocity, as displayed.
    pub velocity_a: i64,
    /// Projected range at the upper search velocity.
    pub range_b: i64,
    /// Negated upper search velocity, as displayed.
    pub velocity_b: i64,
}

/// Range consistent with the measured beat `bf` at hypothetical velocity
/// `v`, under transmitted frequency `f0` and the slope of a `chirp_ps`
/// long ramp over `bandwidth`: `-(doppler(f0, v) - bf) * chirp /
/// bandwidth / 2 * c`, carried out as one exact quotient in mm.
pub open spec fn projected_range_spec(
    f0: int,
    v: int,
    bf: int,
    chirp_ps: int,
    bandwidth: int,
) -> int {
    ((bf - doppler_shift_spec(f0, v)) * chirp_ps * SPEED_OF_LIGHT_MM_PER_S) / (bandwidth * 2
        * PS_PER_S)
}

/// Projected range at hypothetical velocity `v`, exactly
/// `projected_range_spec`.
pub fn projected_range(f0: i64, v: i64, bf: i64, chirp_ps: i64, bandwidth: i64) -> (r: i64)
    requires
        -MAX_TONE_HZ <= f0 <= MAX_TONE_HZ,
        -MAX_VELOCITY_MM_PER_S <= v <= MAX_VELOCITY_MM_PER_S,
        -MAX_TONE_HZ <= bf <= MAX_TONE_HZ,
        0 < chirp_ps <= MAX_CHIRP_PS,
        MIN_PROJECTION_BANDWIDTH_HZ <= bandwidth <= MAX_FREQUENCY_HZ,
    ensures
        r == projected_range_spec(f0 as int, v as int, bf as int, chirp_ps as int, bandwidth as int),
        -1_300_000_000_000_000_000 <= r <= 1_300_000_000_000_000_000,
{
    let d = doppler_shift(f0, v);
    let diff = (bf as i128) - (d as i128);
    proof {
        assert(((diff as int) * (chirp_ps as int)) * (SPEED_OF_LIGHT_MM_PER_S as int)
            <= 2_500_000_000_000_000_000_000_000_000_000_000_000 && ((diff as int) * (
        chirp_ps as int)) * (SPEED_OF_LIGHT_MM_PER_S as int)
            >= -2_500_000_000_000_000_000_000_000_000_000_000_000) by (nonlinear_arith)
            requires
                -8_200_000_000_000 <= diff as int <= 8_200_000_000_000,
                0 < chirp_ps as int <= MAX_CHIRP_PS,
                SPEED_OF_LIGHT_MM_PER_S == 299_999_000_000;
    }
    let num = (diff * (chirp_ps as i128)) * (SPEED_OF_LIGHT_MM_PER_S as i128);
    let den = (bandwidth as i128) * 2 * (PS_PER_S as i128);
    proof {
        assert(num < 1_300_000_000_000_000_000 * den && num > (-1_300_000_000_000_000_000) * den)
            by (nonlinear_arith)
            requires
                -2_500_000_000_000_000_000_000_000_000_000_000_000 <= num as int
                    <= 2_500_000_000_000_000_000_000_000_000_000_000_000,
                den as int >= 2_000_000_000_000_000_000;
    }
    let q = div_floor_i128(num, den);
    proof {
        lemma_div_below(num as int, den as int, 1_300_000_000_000_000_000);
        lemma_div_at_least(num as int, den as int, -1_300_000_000_000_000_000);
    }
    q as i64
}

/// The ambiguity line of one detected peak: the projected ranges at the
/// two ends of the velocity search interval, each displayed against the
/// negated search velocity.
pub fn ambiguity_line(f0: i64, bf: i64, chirp_ps: i64, bandwidth: i64, v_min: i64, v_max: i64) -> (
    line: AmbiguityLine)
    requires
        -MAX_TONE_HZ <= f0 <= MAX_TONE_HZ,
        -MAX_TONE_HZ <= bf <= MAX_TONE_HZ,
        0 < chirp_ps <= MAX_CHIRP_PS,
        MIN_PROJECTION_BANDWIDTH_HZ <= bandwidth <= MAX_FREQUENCY_HZ,
        -MAX_VELOCITY_MM_PER_S <= v_min <= MAX_VELOCITY_MM_PER_S,
        -MAX_VELOCITY_MM_PER_S <= v_max <= MAX_VELOCITY_MM_PER_S,
    ensures
        line.range_a == projected_range_spec(
            f0 as int,
            v_min as int,
            bf as int,
            chirp_ps as int,
            bandwidth as int,
        ),
        line.velocity_a == -v_min,
        line.range_b == projected_range_spec(
            f0 as int,
            v_max as int,
            bf as int,
            chirp_ps as int,
            bandwidth as int,
        ),
        line.velocity_b == -v_max,
{
    let range_a = projected_range(f0, v_min, bf, chirp_ps, bandwidth);
    let range_b = projected_range(f0, v_max, bf, chirp_ps, bandwidth);
    AmbiguityLine { range_a, velocity_a: -v_min, range_b, velocity_b: -v_max }
}

/// One ambiguity line per detected peak of a window's spectrum.
pub fn ambiguity_lines(
    f0: i64,
    peaks: &Vec<(i64, u64)>,
    chirp_ps: i64,
    bandwidth: i64,
    v_min: i64,
    v_max: i64,
) -> (lines: Vec<AmbiguityLine>)
    requires
        -MAX_TONE_HZ <= f0 <= MAX_TONE_HZ,
        forall|i: int|
            0 <= i < peaks@.len() ==> -MAX_TONE_HZ <= (#[trigger] peaks@[i]).0 <= MAX_TONE_HZ,
        0 < chirp_ps <= MAX_CHIRP_PS,
        MIN_PROJECTION_BANDWIDTH_HZ <= bandwidth <= MAX_FREQUENCY_HZ,
        -MAX_VELOCITY_MM_PER_S <= v_min <= MAX_VELOCITY_MM_PER_S,
        -MAX_VELOCITY_MM_PER_S <= v_max <= MAX_VELOCITY_MM_PER_S,
    ensures
        lines@.len() == peaks@.len(),
        forall|i: int|
            0 <= i < peaks@.len() ==> (#[trigger] lines@[i]).range_a == projected_range_spec(
                f0 as int,
                v_min as int,
                peaks@[i].0 as int,
                chirp_ps as int,
                bandwidth as int,
            ) && lines@[i].velocity_a == -v_min && lines@[i].range_b == projected_range_spec(
                f0 as int,
                v_max as int,
                peaks@[i].0 as int,
                chirp_ps as int,
                bandwidth as int,
            ) && lines@[i].velocity_b == -v_max,
{
    let mut lines: Vec<AmbiguityLine> = Vec::new();
    let mut i: usize = 0;
    while i < peaks.len()
        invariant
            -MAX_TONE_HZ <= f0 <= MAX_TONE_HZ,
            forall|j: int|
                0 <= j < peaks@.len() ==> -MAX_TONE_HZ <= (#[trigger] peaks@[j]).0 <= MAX_TONE_HZ,
            0 < chirp_ps <= MAX_CHIRP_PS,
            MIN_PROJECTION_BANDWIDTH_HZ <= bandwidth <= MAX_FREQUENCY_HZ,
            -MAX_VELOCITY_MM_PER_S <= v_min <= MAX_VELOCITY_MM_PER_S,
            -MAX_VELOCITY_MM_PER_S <= v_max <= MAX_VELOCITY_MM_PER_S,
            0 <= i <= peaks@.len(),
            lines@.len() == i,
            forall|j: int|
                0 <= j < i ==> (#[trigger] lines@[j]).range_a == projected_range_spec(
                    f0 as int,
                    v_min as int,
                    peaks@[j].0 as int,
                    chirp_ps as int,
                    bandwidth as int,
                ) && lines@[j].velocity_a == -v_min && lines@[j].range_b == projected_range_spec(
                    f0 as int,
                    v_max as int,
                    peaks@[j].0 as int,
                    chirp_ps as int,
                    bandwidth as int,
                ) && lines@[j].velocity_b == -v_max,
        decreases peaks@.len() - i,
    {
        let (bf, _mag) = peaks[i];
        lines.push(ambiguity_line(f0, bf, chirp_ps, bandwidth, v_min, v_max));
        i = i + 1;
    }
    lines
}

} // verus!
