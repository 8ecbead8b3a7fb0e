//! The chirp waveform: the instantaneous transmitted frequency of a
//! sawtooth-ramped chirp sequence. Each entry of `chirp_durations` is one
//! independently timed ramp over the same bandwidth; time wraps around the
//! total duration with a true non-negative remainder, so negative times
//! resolve to the correct segment as well.

use vstd::prelude::*;
use vstd::arithmetic::div_mod::{lemma_mod_add_multiples_vanish, lemma_mod_bound};
use crate::errors::RadarError;
use crate::mathutil::{lemma_div_below, wrap_time};
use crate::units::{MAX_CHIRP_COUNT, MAX_CHIRP_PS, MAX_FREQUENCY_HZ};

verus! {

/// Every chirp entry present and positive.
pub open spec fn chirps_positive(chirps: Seq<i64>) -> bool {
    &&& chirps.len() > 0
    &&& forall|i: int| 0 <= i < chirps.len() ==> chirps[i] > 0
}

/// Magnitude caps on the chirp list under which the walk's arithmetic is
/// proved free of overflow.
pub open spec fn chirps_bounded(chirps: Seq<i64>) -> bool {
    &&& chirps.len() <= MAX_CHIRP_COUNT
    &&& forall|i: int| 0 <= i < chirps.len() ==> -MAX_CHIRP_PS <= #[trigger] chirps[i] <= MAX_CHIRP_PS
}

/// Sum of the first `i` chirp durations; the start time of segment `i`.
pub open spec fn duration_sum(chirps: Seq<i64>, i: int) -> int
    decreases i,
{
    if i <= 0 || chirps.len() == 0 {
        0
    } else {
        chirps[0] + duration_sum(chirps.skip(1), i - 1)
    }
}

/// The whole sawtooth period: the sum of every chirp duration.
pub open spec fn total_duration(chirps: Seq<i64>) -> int {
    duration_sum(chirps, chirps.len() as int)
}

/// Peels the last summand off a running sum.
pub proof fn lemma_duration_sum_step(chirps: Seq<i64>, i: int)
    requires
        0 <= i < chirps.len(),
    ensures
        duration_sum(chirps, i + 1) == duration_sum(chirps, i) + chirps[i],
    decreases i,
{
    if i > 0 {
        lemma_duration_sum_step(chirps.skip(1), i - 1);
        assert(chirps.skip(1)[i - 1] == chirps[i]);
    } else {
        assert(duration_sum(chirps.skip(1), 0) == 0);
    }
}

/// The running sum grows strictly along positive entries.
pub proof fn lemma_duration_sum_bounds(chirps: Seq<i64>, a: int, b: int)
    requires
        0 <= a <= b <= chirps.len(),
        forall|k: int| 0 <= k < chirps.len() ==> chirps[k] > 0,
    ensures
        duration_sum(chirps, a) <= duration_sum(chirps, b),
        a < b ==> duration_sum(chirps, a) < duration_sum(chirps, b),
    decreases b - a,
{
    if a < b {
        lemma_duration_sum_step(chirps, b - 1);
        lemma_duration_sum_bounds(chirps, a, b - 1);
    }
}

/// Frequency offset above the carrier at a wrapped time `tw`: walk the
/// segments in order, and scale the position inside the selected segment
/// by the bandwidth.
pub open spec fn ramp_offset(chirps: Seq<i64>, tw: int, bw: int) -> int
    decreases chirps.len(),
{
    if chirps.len() == 0 {
        0
    } else if tw < chirps[0] {
        (tw * bw) / (chirps[0] as int)
    } else {
        ramp_offset(chirps.skip(1), tw - chirps[0], bw)
    }
}

/// Instantaneous transmitted frequency of the sawtooth chirp sequence at
/// time `t` (any sign), in Hz.
pub open spec fn frequency_at_spec(t: int, chirps: Seq<i64>, carrier: int, bw: int) -> int {
    carrier + ramp_offset(chirps, t % total_duration(chirps), bw)
}

/// The ramp offset stays inside `[0, bw)`.
pub proof fn lemma_ramp_offset_in_range(chirps: Seq<i64>, tw: int, bw: int)
    requires
        forall|k: int| 0 <= k < chirps.len() ==> chirps[k] > 0,
        0 <= tw < total_duration(chirps),
        bw >= 0,
    ensures
        0 <= ramp_offset(chirps, tw, bw),
        bw > 0 ==> ramp_offset(chirps, tw, bw) < bw,
    decreases chirps.len(),
{
    if chirps.len() == 0 {
        assert(total_duration(chirps) == 0);
    } else if tw < chirps[0] {
        assert(0 <= tw * bw) by (nonlinear_arith)
            requires tw >= 0 && bw >= 0;
        vstd::arithmetic::div_mod::lemma_div_pos_is_pos(tw * bw, chirps[0] as int);
        if bw > 0 {
            assert(tw * bw < bw * (chirps[0] as int)) by (nonlinear_arith)
                requires tw < chirps[0] && bw > 0;
            lemma_div_below(tw * bw, chirps[0] as int, bw);
        }
    } else {
        assert(total_duration(chirps) == chirps[0] + total_duration(chirps.skip(1)));
        lemma_ramp_offset_in_range(chirps.skip(1), tw - chirps[0], bw);
    }
}

/// Splitting the walk: the segments before `i` are consumed by subtracting
/// their combined span from the wrapped time.
pub proof fn lemma_ramp_offset_skip(chirps: Seq<i64>, tw: int, bw: int, i: int)
    requires
        0 <= i <= chirps.len(),
        duration_sum(chirps, i) <= tw,
        forall|k: int| 0 <= k < chirps.len() ==> chirps[k] > 0,
    ensures
        ramp_offset(chirps, tw, bw) == ramp_offset(
            chirps.skip(i),
            tw - duration_sum(chirps, i),
            bw,
        ),
    decreases i,
{
    if i == 0 {
        assert(chirps.skip(0) =~= chirps);
    } else {
        lemma_duration_sum_bounds(chirps, 1, i);
        assert(duration_sum(chirps.skip(1), 0) == 0);
        assert(duration_sum(chirps, 1) == chirps[0]);
        assert(forall|k: int|
            0 <= k < chirps.skip(1).len() ==> chirps.skip(1)[k] > 0);
        lemma_ramp_offset_skip(chirps.skip(1), tw - chirps[0], bw, i - 1);
        assert(chirps.skip(1).skip(i - 1) =~= chirps.skip(i));
    }
}

/// The waveform is periodic: one full period added to the time leaves the
/// frequency unchanged, for every time.
pub proof fn lemma_frequency_periodic(t: int, chirps: Seq<i64>, carrier: int, bw: int)
    requires
        chirps_positive(chirps),
    ensures
        frequency_at_spec(t + total_duration(chirps), chirps, carrier, bw) == frequency_at_spec(
            t,
            chirps,
            carrier,
            bw,
        ),
{
    lemma_duration_sum_bounds(chirps, 0, chirps.len() as int);
    lemma_mod_add_multiples_vanish(t, total_duration(chirps));
}

/// The transmitted frequency always lies in the band
/// `[carrier, carrier + bw)`, for every time.
pub proof fn lemma_frequency_in_band(t: int, chirps: Seq<i64>, carrier: int, bw: int)
    requires
        chirps_positive(chirps),
        bw > 0,
    ensures
        carrier <= frequency_at_spec(t, chirps, carrier, bw) < carrier + bw,
{
    lemma_duration_sum_bounds(chirps, 0, chirps.len() as int);
    lemma_mod_bound(t, total_duration(chirps));
    lemma_ramp_offset_in_range(chirps, t % total_duration(chirps), bw);
}

/// Sums the chirp durations, rejecting an empty list or a non-positive
/// entry before any other computation.
pub fn sum_chirps(chirps: &Vec<i64>) -> (r: Result<i64, RadarError>)
    requires
        chirps_bounded(chirps@),
    ensures
        match r {
            Ok(total) => chirps_positive(chirps@) && total == total_duration(chirps@) && 0 < total
                <= chirps@.len() * MAX_CHIRP_PS,
            Err(e) => e == RadarError::InvalidConfig && !chirps_positive(chirps@),
        },
{
    let n = chirps.len();
    if n == 0 {
        return Err(RadarError::InvalidConfig);
    }
    let mut total: i64 = 0;
    let mut i: usize = 0;
    while i < n
        invariant
            chirps_bounded(chirps@),
            n == chirps@.len(),
            0 <= i <= n,
            forall|j: int| 0 <= j < i ==> chirps@[j] > 0,
            total == duration_sum(chirps@, i as int),
            0 <= total <= i * MAX_CHIRP_PS,
        decreases n - i,
    {
        let c = chirps[i];
        if c <= 0 {
            return Err(RadarError::InvalidConfig);
        }
        proof {
            lemma_duration_sum_step(chirps@, i as int);
        }
        total = total + c;
        i = i + 1;
    }
    proof {
        lemma_duration_sum_bounds(chirps@, 0, n as int);
    }
    Ok(total)
}

/// Instantaneous transmitted frequency at time `t` (ps, any sign), per
/// spec `frequency_at_spec`; always inside the chirp band.
pub fn frequency_at(t: i64, chirps: &Vec<i64>, carrier_frequency: i64, bandwidth: i64) -> (r:
    Result<i64, RadarError>)
    requires
        chirps_bounded(chirps@),
        -MAX_FREQUENCY_HZ <= carrier_frequency <= MAX_FREQUENCY_HZ,
        0 <= bandwidth <= MAX_FREQUENCY_HZ,
    ensures
        match r {
            Ok(freq) => chirps_positive(chirps@) && freq == frequency_at_spec(
                t as int,
                chirps@,
                carrier_frequency as int,
                bandwidth as int,
            ) && carrier_frequency <= freq <= carrier_frequency + bandwidth && (bandwidth > 0
                ==> freq < carrier_frequency + bandwidth),
            Err(e) => e == RadarError::InvalidConfig && !chirps_positive(chirps@),
        },
{
    let total = match sum_chirps(chirps) {
        Ok(t) => t,
        Err(e) => {
            return Err(e);
        },
    };
    let n = chirps.len();
    let tw = wrap_time(t, total);
    let mut seg: usize = 0;
    let mut start: i64 = 0;
    while seg < n && start + chirps[seg] <= tw
        invariant
            chirps_bounded(chirps@),
            chirps_positive(chirps@),
            n == chirps@.len(),
            total == total_duration(chirps@),
            0 <= tw < total,
            total <= n * MAX_CHIRP_PS,
            0 <= seg < n,
            start == duration_sum(chirps@, seg as int),
            0 <= start <= tw,
        decreases n - seg,
    {
        proof {
            lemma_duration_sum_step(chirps@, seg as int);
            if seg + 1 == n {
                assert(duration_sum(chirps@, seg as int + 1) == total);
            } else {
                lemma_duration_sum_bounds(chirps@, seg as int + 1, n as int);
            }
        }
        start = start + chirps[seg];
        seg = seg + 1;
    }
    let inside = tw - start;
    proof {
        assert((inside as int) * (bandwidth as int) <= MAX_CHIRP_PS * (MAX_FREQUENCY_HZ as int))
            by (nonlinear_arith)
            requires
                0 <= inside as int <= MAX_CHIRP_PS,
                0 <= bandwidth as int <= MAX_FREQUENCY_HZ;
        assert(0 <= (inside as int) * (bandwidth as int)) by (nonlinear_arith)
            requires 0 <= inside as int && 0 <= bandwidth as int;
        vstd::arithmetic::div_mod::lemma_div_pos_is_pos(
            (inside as int) * (bandwidth as int),
            chirps@[seg as int] as int,
        );
        if bandwidth > 0 {
            assert((inside as int) * (bandwidth as int) < (bandwidth as int) * (chirps@[
                seg as int] as int)) by (nonlinear_arith)
                requires
                    (inside as int) < chirps@[seg as int] as int,
                    bandwidth as int > 0;
            lemma_div_below(
                (inside as int) * (bandwidth as int),
                chirps@[seg as int] as int,
                bandwidth as int,
            );
        } else {
            assert((inside as int) * (bandwidth as int) == 0) by (nonlinear_arith)
                requires bandwidth as int == 0;
            assert((inside as int) * (bandwidth as int) / (chirps@[seg as int] as int) == 0);
        }
    }
    let offset = (((inside as u128) * (bandwidth as u128)) / (chirps[seg] as u128)) as i64;
    proof {
        lemma_ramp_offset_skip(chirps@, tw as int, bandwidth as int, seg as int);
        assert(chirps@.skip(seg as int)[0] == chirps@[seg as int]);
    }
    Ok(carrier_frequency + offset)
}

/// The transmitted-frequency timeline: `frequency_at` evaluated over a
/// whole time grid.
pub fn frequency_timeline(
    t_grid: &Vec<i64>,
    chirps: &Vec<i64>,
    carrier_frequency: i64,
    bandwidth: i64,
) -> (r: Result<Vec<i64>, RadarError>)
    requires
        chirps_bounded(chirps@),
        -MAX_FREQUENCY_HZ <= carrier_frequency <= MAX_FREQUENCY_HZ,
        0 <= bandwidth <= MAX_FREQUENCY_HZ,
    ensures
        match r {
            Ok(f) => chirps_positive(chirps@) && f@.len() == t_grid@.len() && (forall|i: int|
                0 <= i < t_grid@.len() ==> f@[i] == frequency_at_spec(
                    t_grid@[i] as int,
                    chirps@,
                    carrier_frequency as int,
                    bandwidth as int,
                )) && (forall|i: int|
                0 <= i < t_grid@.len() ==> carrier_frequency <= #[trigger] f@[i]
                    <= carrier_frequency + bandwidth),
            Err(e) => e == RadarError::InvalidConfig && !chirps_positive(chirps@),
        },
{
    match sum_chirps(chirps) {
        Ok(_) => (),
        Err(e) => {
            return Err(e);
        },
    }
    let mut f: Vec<i64> = Vec::new();
    let mut i: usize = 0;
    while i < t_grid.len()
        invariant
            chirps_bounded(chirps@),
            chirps_positive(chirps@),
            -MAX_FREQUENCY_HZ <= carrier_frequency <= MAX_FREQUENCY_HZ,
            0 <= bandwidth <= MAX_FREQUENCY_HZ,
            0 <= i <= t_grid@.len(),
            f@.len() == i,
            forall|j: int|
                0 <= j < i ==> f@[j] == frequency_at_spec(
                    t_grid@[j] as int,
                    chirps@,
                    carrier_frequency as int,
                    bandwidth as int,
                ),
            forall|j: int|
                0 <= j < i ==> carrier_frequency <= #[trigger] f@[j] <= carrier_frequency
                    + bandwidth,
        decreases t_grid@.len() - i,
    {
        let freq = match frequency_at(t_grid[i], chirps, carrier_frequency, bandwidth) {
            Ok(freq) => freq,
            Err(e) => {
                return Err(e);
            },
        };
        f.push(freq);
        i = i + 1;
    }
    Ok(f)
}

} // verus!
