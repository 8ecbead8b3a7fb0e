//! Beat-frequency synthesis: the Doppler shift of the transmitted tone
//! plus the offset of the range-delayed waveform against the transmitted
//! one, evaluated over a whole time grid.

use vstd::prelude::*;
use crate::errors::RadarError;
use crate::mathutil::{div_floor_i128, lemma_div_at_least, lemma_div_below};
use crate::units::{
    DOPPLER_LIMIT_HZ, MAX_FREQUENCY_HZ, MAX_RANGE_MM, MAX_TIME_PS, MAX_TONE_HZ,
    MAX_VELOCITY_MM_PER_S, PS_PER_S, SPEED_OF_LIGHT_MM_PER_S,
};
use crate::waveform::{
    chirps_bounded, chirps_positive, frequency_at, frequency_at_spec, sum_chirps,
};

verus! {

/// The Doppler shift of `frequency` at radial velocity `velocity`:
/// `f * ((c - v) / (c + v) - 1)`, which over the integers is exactly
/// `(-2 v f) / (c + v)`, rounded toward negative infinity. Positive
/// velocity (receding) gives a negative shift.
pub open spec fn doppler_shift_spec(frequency: int, velocity: int) -> int {
    (-2 * velocity * frequency) / (SPEED_OF_LIGHT_MM_PER_S + velocity)
}

/// Round-trip delay of a reflection at `range`: `2 * range / c`, in ps.
pub open spec fn range_delay_spec(range: int) -> int {
    (2 * range * PS_PER_S) / (SPEED_OF_LIGHT_MM_PER_S as int)
}

/// Beat frequency at grid time `t` whose transmitted frequency is `f`:
/// the Doppler shift of `f` plus the range-induced offset, which is the
/// waveform evaluated at the delayed time minus `f`.
pub open spec fn beat_spec(
    t: int,
    f: int,
    range: int,
    velocity: int,
    chirps: Seq<i64>,
    carrier: int,
    bw: int,
) -> int {
    doppler_shift_spec(f, velocity) + frequency_at_spec(
        t - range_delay_spec(range),
        chirps,
        carrier,
        bw,
    ) - f
}

/// Doppler shift, exactly `doppler_shift_spec`.
pub fn doppler_shift(frequency: i64, velocity: i64) -> (r: i64)
    requires
        -MAX_TONE_HZ <= frequency <= MAX_TONE_HZ,
        -MAX_VELOCITY_MM_PER_S <= velocity <= MAX_VELOCITY_MM_PER_S,
    ensures
        r == doppler_shift_spec(frequency as int, velocity as int),
        -DOPPLER_LIMIT_HZ <= r <= DOPPLER_LIMIT_HZ,
{
    proof {
        assert(-800_000_000_000_000_000_000_000 <= (-2 * (velocity as int)) * (frequency as int)
            <= 800_000_000_000_000_000_000_000) by (nonlinear_arith)
            requires
                -MAX_VELOCITY_MM_PER_S <= velocity as int <= MAX_VELOCITY_MM_PER_S,
                -MAX_TONE_HZ <= frequency as int <= MAX_TONE_HZ;
    }
    let num: i128 = (-2 * (velocity as i128)) * (frequency as i128);
    let den: i128 = (SPEED_OF_LIGHT_MM_PER_S as i128) + (velocity as i128);
    proof {
        assert(num < DOPPLER_LIMIT_HZ * den) by (nonlinear_arith)
            requires
                num <= 800_000_000_000_000_000_000_000,
                den >= 199_999_000_000;
        assert(num >= (-DOPPLER_LIMIT_HZ) * den) by (nonlinear_arith)
            requires
                num >= -800_000_000_000_000_000_000_000,
                den >= 199_999_000_000;
    }
    let q = div_floor_i128(num, den);
    proof {
        lemma_div_below(num as int, den as int, DOPPLER_LIMIT_HZ as int);
        lemma_div_at_least(num as int, den as int, -DOPPLER_LIMIT_HZ as int);
    }
    q as i64
}

/// Round-trip range delay in ps, exactly `range_delay_spec`.
pub fn range_delay(range: i64) -> (r: i64)
    requires
        0 <= range <= MAX_RANGE_MM,
    ensures
        r == range_delay_spec(range as int),
        0 <= r <= 10_000_000_000,
{
    proof {
        assert((2 * (range as int)) * (PS_PER_S as int) <= 2_000_000_000_000_000_000_000)
            by (nonlinear_arith)
            requires 0 <= range as int <= MAX_RANGE_MM;
        assert(0 <= (2 * (range as int)) * (PS_PER_S as int)) by (nonlinear_arith)
            requires 0 <= range as int;
    }
    let num = (2 * (range as u128)) * (PS_PER_S as u128);
    let q = num / (SPEED_OF_LIGHT_MM_PER_S as u128);
    proof {
        vstd::arithmetic::div_mod::lemma_div_pos_is_pos(num as int, SPEED_OF_LIGHT_MM_PER_S as int);
        assert((num as int) < 10_000_000_001 * (SPEED_OF_LIGHT_MM_PER_S as int))
            by (nonlinear_arith)
            requires num as int <= 2_000_000_000_000_000_000_000;
        lemma_div_below(num as int, SPEED_OF_LIGHT_MM_PER_S as int, 10_000_000_001);
    }
    q as i64
}

/// Beat-frequency series of one target over the time grid `t_grid`, whose
/// transmitted frequencies are `f_grid`: one value per grid entry, each
/// exactly `beat_spec`.
pub fn beat_series(
    t_grid: &Vec<i64>,
    f_grid: &Vec<i64>,
    range: i64,
    velocity: i64,
    carrier_frequency: i64,
    bandwidth: i64,
    chirps: &Vec<i64>,
) -> (r: Result<Vec<i64>, RadarError>)
    requires
        chirps_bounded(chirps@),
        -MAX_FREQUENCY_HZ <= carrier_frequency <= MAX_FREQUENCY_HZ,
        0 <= bandwidth <= MAX_FREQUENCY_HZ,
        0 <= range <= MAX_RANGE_MM,
        -MAX_VELOCITY_MM_PER_S <= velocity <= MAX_VELOCITY_MM_PER_S,
        f_grid@.len() == t_grid@.len(),
        forall|i: int| 0 <= i < t_grid@.len() ==> -MAX_TIME_PS <= #[trigger] t_grid@[i] <= MAX_TIME_PS,
        forall|i: int| 0 <= i < f_grid@.len() ==> -MAX_TONE_HZ <= #[trigger] f_grid@[i] <= MAX_TONE_HZ,
    ensures
        match r {
            Ok(b) => chirps_positive(chirps@) && b@.len() == t_grid@.len() && forall|i: int|
                0 <= i < t_grid@.len() ==> b@[i] == beat_spec(
                    t_grid@[i] as int,
                    f_grid@[i] as int,
                    range as int,
                    velocity as int,
                    chirps@,
                    carrier_frequency as int,
                    bandwidth as int,
                ),
            Err(e) => e == RadarError::InvalidConfig && !chirps_positive(chirps@),
        },
{
    match sum_chirps(chirps) {
        Ok(_) => (),
        Err(e) => {
            return Err(e);
        },
    }
    let tau = range_delay(range);
    let mut b: Vec<i64> = Vec::new();
    let mut i: usize = 0;
    while i < t_grid.len()
        invariant
            chirps_bounded(chirps@),
            chirps_positive(chirps@),
            -MAX_FREQUENCY_HZ <= carrier_frequency <= MAX_FREQUENCY_HZ,
            0 <= bandwidth <= MAX_FREQUENCY_HZ,
            0 <= range <= MAX_RANGE_MM,
            -MAX_VELOCITY_MM_PER_S <= velocity <= MAX_VELOCITY_MM_PER_S,
            f_grid@.len() == t_grid@.len(),
            forall|j: int|
                0 <= j < t_grid@.len() ==> -MAX_TIME_PS <= #[trigger] t_grid@[j] <= MAX_TIME_PS,
            forall|j: int|
                0 <= j < f_grid@.len() ==> -MAX_TONE_HZ <= #[trigger] f_grid@[j] <= MAX_TONE_HZ,
            tau == range_delay_spec(range as int),
            0 <= tau <= 10_000_000_000,
            0 <= i <= t_grid@.len(),
            b@.len() == i,
            forall|j: int|
                0 <= j < i ==> b@[j] == beat_spec(
                    t_grid@[j] as int,
                    f_grid@[j] as int,
                    range as int,
                    velocity as int,
                    chirps@,
                    carrier_frequency as int,
                    bandwidth as int,
                ),
        decreases t_grid@.len() - i,
    {
        let delayed_t = t_grid[i] - tau;
        let delayed_f = match frequency_at(delayed_t, chirps, carrier_frequency, bandwidth) {
            Ok(freq) => freq,
            Err(e) => {
                return Err(e);
            },
        };
        let d = doppler_shift(f_grid[i], velocity);
        let value = d + (delayed_f - f_grid[i]);
        b.push(value);
        i = i + 1;
    }
    Ok(b)
}

/// A target standing still at range zero beats at exactly zero, at every
/// grid time whose transmitted frequency is the waveform's own value,
/// under every chirp configuration.
pub proof fn lemma_zero_target_beat(t: int, f: int, chirps: Seq<i64>, carrier: int, bw: int)
    requires
        chirps_positive(chirps),
        f == frequency_at_spec(t, chirps, carrier, bw),
    ensures
        beat_spec(t, f, 0, 0, chirps, carrier, bw) == 0,
{
    lemma_pure_doppler_beat(t, f, 0, chirps, carrier, bw);
    vstd::arithmetic::div_mod::lemma_div_of0(SPEED_OF_LIGHT_MM_PER_S as int);
    assert((-2 * 0 * f) == 0) by (nonlinear_arith);
    assert(doppler_shift_spec(f, 0) == 0);
}

/// With range zero the beat reduces, at every grid time, to exactly the
/// Doppler shift of the transmitted frequency: it does not depend on the
/// time other than through that frequency.
pub proof fn lemma_pure_doppler_beat(
    t: int,
    f: int,
    velocity: int,
    chirps: Seq<i64>,
    carrier: int,
    bw: int,
)
    requires
        chirps_positive(chirps),
        f == frequency_at_spec(t, chirps, carrier, bw),
    ensures
        beat_spec(t, f, 0, velocity, chirps, carrier, bw) == doppler_shift_spec(f, velocity),
{
    vstd::arithmetic::div_mod::lemma_div_of0(SPEED_OF_LIGHT_MM_PER_S as int);
    assert((2 * 0 * PS_PER_S) == 0) by (nonlinear_arith);
    assert(range_delay_spec(0) == 0);
}

} // verus!
