//! Time grids: evenly spaced sample times, the nearest-time lookup, and
//! the start times of the capture windows derived from the chirp list.

use vstd::prelude::*;
use vstd::arithmetic::div_mod::{lemma_div_pos_is_pos, lemma_multiply_divide_le};
use crate::errors::RadarError;
use crate::units::{MAX_CHIRP_PS, MAX_TIME_PS};
use crate::waveform::{
    chirps_bounded, chirps_positive, duration_sum, lemma_duration_sum_step, sum_chirps,
};

verus! {

/// The `i`-th of a set of evenly spaced sample times.
pub open spec fn sample_time_spec(start: int, span: int, denom: int, i: int) -> int {
    start + (i * span) / denom
}

/// `count` evenly spaced sample times `start + (i * span) / denom`; with
/// `count == denom` this renders a display grid over `[start, start + span)`,
/// and with `count == denom + 1` a capture window whose last sample lands
/// on `start + span`.
pub fn sample_times(start: i64, span: i64, count: usize, denom: usize) -> (r: Vec<i64>)
    requires
        1 <= denom,
        count <= denom + 1,
        0 <= span <= MAX_TIME_PS,
        -MAX_TIME_PS <= start <= MAX_TIME_PS,
    ensures
        r@.len() == count,
        forall|i: int|
            0 <= i < count ==> r@[i] == sample_time_spec(
                start as int,
                span as int,
                denom as int,
                i,
            ),
        forall|i: int| 0 <= i < count ==> start <= #[trigger] r@[i] <= start + span,
{
    let mut r: Vec<i64> = Vec::new();
    let mut i: usize = 0;
    while i < count
        invariant
            1 <= denom,
            count <= denom + 1,
            0 <= span <= MAX_TIME_PS,
            -MAX_TIME_PS <= start <= MAX_TIME_PS,
            0 <= i <= count,
            r@.len() == i,
            forall|j: int|
                0 <= j < i ==> r@[j] == sample_time_spec(
                    start as int,
                    span as int,
                    denom as int,
                    j,
                ),
            forall|j: int| 0 <= j < i ==> start <= #[trigger] r@[j] <= start + span,
        decreases count - i,
    {
        proof {
            assert((i as int) * (span as int) <= (denom as int) * (span as int))
                by (nonlinear_arith)
                requires 0 <= i as int <= denom as int && 0 <= span as int;
            assert((i as int) * (span as int) <= 0xffff_ffff_ffff_ffff * (MAX_TIME_PS as int))
                by (nonlinear_arith)
                requires 0 <= i as int <= 0xffff_ffff_ffff_ffff && 0 <= span as int <= MAX_TIME_PS;
            assert(0 <= (i as int) * (span as int)) by (nonlinear_arith)
                requires 0 <= i as int && 0 <= span as int;
            lemma_div_pos_is_pos((i as int) * (span as int), denom as int);
            lemma_multiply_divide_le(
                (i as int) * (span as int),
                denom as int,
                span as int,
            );
        }
        let off = (((i as u128) * (span as u128)) / (denom as u128)) as i64;
        r.push(start + off);
        i = i + 1;
    }
    r
}

/// Absolute difference of two times.
pub open spec fn time_dist(a: int, b: int) -> int {
    if a >= b {
        a - b
    } else {
        b - a
    }
}

/// Absolute difference of two times, exactly `time_dist`.
fn dist64(a: i64, b: i64) -> (d: u128)
    ensures
        d == time_dist(a as int, b as int),
{
    let diff = (a as i128) - (b as i128);
    if diff >= 0 {
        diff as u128
    } else {
        (-diff) as u128
    }
}

/// The scan behind the nearest-time lookup: the best index so far, then
/// on through the rest of the grid.
pub open spec fn nearest_from(times: Seq<i64>, t: int, i: int, best: int) -> int
    decreases times.len() - i,
{
    if i < 0 || i >= times.len() {
        best
    } else if time_dist(times[i] as int, t) < time_dist(times[best] as int, t) {
        nearest_from(times, t, i + 1, i)
    } else {
        nearest_from(times, t, i + 1, best)
    }
}

/// First index whose time is nearest to `t`; 0 for an empty grid.
pub open spec fn nearest_index_spec(times: Seq<i64>, t: int) -> int {
    if times.len() == 0 {
        0
    } else {
        nearest_from(times, t, 1, 0)
    }
}

/// Index of the grid time nearest to `t`: the smallest absolute time
/// difference, ties broken by the first match; 0 for an empty grid.
pub fn idx_at_t(times: &Vec<i64>, t: i64) -> (idx: usize)
    ensures
        idx == nearest_index_spec(times@, t as int),
        times@.len() == 0 ==> idx == 0,
        times@.len() > 0 ==> idx < times@.len() && (forall|j: int|
            0 <= j < times@.len() ==> time_dist(times@[idx as int] as int, t as int) <= time_dist(
                #[trigger] times@[j] as int,
                t as int,
            )) && (forall|j: int|
            0 <= j < idx ==> time_dist(times@[idx as int] as int, t as int) < time_dist(
                #[trigger] times@[j] as int,
                t as int,
            )),
{
    if times.len() == 0 {
        return 0;
    }
    let mut best: usize = 0;
    let mut best_dist = dist64(times[0], t);
    let mut i: usize = 1;
    while i < times.len()
        invariant
            times@.len() > 0,
            nearest_index_spec(times@, t as int) == nearest_from(
                times@,
                t as int,
                i as int,
                best as int,
            ),
            0 <= best < i <= times@.len(),
            best_dist == time_dist(times@[best as int] as int, t as int),
            forall|j: int|
                0 <= j < i ==> best_dist <= time_dist(#[trigger] times@[j] as int, t as int),
            forall|j: int|
                0 <= j < best ==> best_dist < time_dist(#[trigger] times@[j] as int, t as int),
        decreases times@.len() - i,
    {
        let d = dist64(times[i], t);
        if d < best_dist {
            best = i;
            best_dist = d;
        }
        i = i + 1;
    }
    best
}

/// Start time of capture window `i`: the start of its chirp segment plus
/// 98% of the segment's duration.
pub open spec fn window_start_spec(chirps: Seq<i64>, i: int) -> int {
    duration_sum(chirps, i) + (chirps[i] * 98) / 100
}

/// One capture-window start time per chirp segment, each exactly
/// `window_start_spec`.
pub fn window_starts(chirps: &Vec<i64>) -> (r: Result<Vec<i64>, RadarError>)
    requires
        chirps_bounded(chirps@),
    ensures
        match r {
            Ok(s) => chirps_positive(chirps@) && s@.len() == chirps@.len() && (forall|i: int|
                0 <= i < chirps@.len() ==> s@[i] == window_start_spec(chirps@, i)) && (forall|
                i: int,
            |
                0 <= i < chirps@.len() ==> 0 <= #[trigger] s@[i] < 4_200_000_000_000_000),
            Err(e) => e == RadarError::InvalidConfig && !chirps_positive(chirps@),
        },
{
    match sum_chirps(chirps) {
        Ok(_) => (),
        Err(e) => {
            return Err(e);
        },
    }
    let n = chirps.len();
    let mut s: Vec<i64> = Vec::new();
    let mut prefix: i64 = 0;
    let mut i: usize = 0;
    while i < n
        invariant
            chirps_bounded(chirps@),
            chirps_positive(chirps@),
            n == chirps@.len(),
            0 <= i <= n,
            s@.len() == i,
            prefix == duration_sum(chirps@, i as int),
            0 <= prefix <= i * MAX_CHIRP_PS,
            forall|j: int| 0 <= j < i ==> s@[j] == window_start_spec(chirps@, j),
            forall|j: int| 0 <= j < i ==> 0 <= #[trigger] s@[j] < 4_200_000_000_000_000,
        decreases n - i,
    {
        let c = chirps[i];
        let off = (((c as u64) * 98) / 100) as i64;
        proof {
            lemma_div_pos_is_pos((c as int) * 98, 100);
            lemma_multiply_divide_le((c as int) * 98, 100, c as int);
            lemma_duration_sum_step(chirps@, i as int);
        }
        s.push(prefix + off);
        prefix = prefix + c;
        i = i + 1;
    }
    Ok(s)
}

} // verus!
