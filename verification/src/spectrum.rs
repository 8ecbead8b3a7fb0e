//! One-sided spectrum layout: given the magnitude array of an `n`-bin
//! FFT, keep the first `n/2` bins and attach to bin `i` its frequency
//! `i * sampling_frequency / n`. The magnitudes themselves are plain
//! fixed-point counts computed outside this crate.

use vstd::prelude::*;
use vstd::arithmetic::div_mod::{lemma_div_pos_is_pos, lemma_multiply_divide_le};
use crate::errors::RadarError;
use crate::units::MAX_SAMPLING_HZ;

verus! {

/// Frequency of bin `i` of an `n`-sample window sampled at `fs` Hz.
pub open spec fn bin_frequency_spec(i: int, n: int, fs: int) -> int {
    (i * fs) / n
}

/// One-sided magnitude spectrum: `(frequency, magnitude)` pairs for the
/// first `n/2` bins of the `n` magnitudes handed in; an empty signal is
/// rejected.
pub fn spectrum(magnitudes: &Vec<u64>, sampling_frequency: i64) -> (r: Result<
    Vec<(i64, u64)>,
    RadarError,
>)
    requires
        0 <= sampling_frequency <= MAX_SAMPLING_HZ,
    ensures
        match r {
            Ok(s) => magnitudes@.len() > 0 && s@.len() == magnitudes@.len() / 2 && (forall|i: int|
                0 <= i < s@.len() ==> (#[trigger] s@[i]).0 == bin_frequency_spec(
                    i,
                    magnitudes@.len() as int,
                    sampling_frequency as int,
                ) && s@[i].1 == magnitudes@[i]) && (forall|i: int|
                0 <= i < s@.len() ==> 0 <= (#[trigger] s@[i]).0 <= sampling_frequency),
            Err(e) => e == RadarError::InvalidInput && magnitudes@.len() == 0,
        },
{
    let n = magnitudes.len();
    if n == 0 {
        return Err(RadarError::InvalidInput);
    }
    let half = n / 2;
    let mut s: Vec<(i64, u64)> = Vec::new();
    let mut i: usize = 0;
    while i < half
        invariant
            0 <= sampling_frequency <= MAX_SAMPLING_HZ,
            n == magnitudes@.len(),
            n > 0,
            half == n / 2,
            0 <= i <= half,
            s@.len() == i,
            forall|j: int|
                0 <= j < i ==> (#[trigger] s@[j]).0 == bin_frequency_spec(
                    j,
                    magnitudes@.len() as int,
                    sampling_frequency as int,
                ) && s@[j].1 == magnitudes@[j],
            forall|j: int| 0 <= j < i ==> 0 <= (#[trigger] s@[j]).0 <= sampling_frequency,
        decreases half - i,
    {
        proof {
            assert((i as int) * (sampling_frequency as int) <= (n as int) * (
            sampling_frequency as int)) by (nonlinear_arith)
                requires 0 <= i as int <= n as int && 0 <= sampling_frequency as int;
            assert((i as int) * (sampling_frequency as int) <= 0xffff_ffff_ffff_ffff * (MAX_SAMPLING_HZ as int))
                by (nonlinear_arith)
                requires 0 <= i as int <= 0xffff_ffff_ffff_ffff && 0 <= sampling_frequency as int <= MAX_SAMPLING_HZ;
            assert(0 <= (i as int) * (sampling_frequency as int)) by (nonlinear_arith)
                requires 0 <= i as int && 0 <= sampling_frequency as int;
            lemma_div_pos_is_pos((i as int) * (sampling_frequency as int), n as int);
            lemma_multiply_divide_le(
                (i as int) * (sampling_frequency as int),
                n as int,
                sampling_frequency as int,
            );
        }
        let freq = (((i as u128) * (sampling_frequency as u128)) / (n as u128)) as i64;
        let mag = magnitudes[i];
        s.push((freq, mag));
        i = i + 1;
    }
    Ok(s)
}

} // verus!
