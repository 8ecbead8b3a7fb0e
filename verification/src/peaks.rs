//! Peak detection: one left-to-right scan over a magnitude array. The
//! local baseline of an index is the mean of the value and its successor
//! (just the value itself at the last index, where the forward window is
//! clamped). While values exceed their baseline, the largest seen is
//! tracked as an open candidate; the moment a value falls strictly below
//! its baseline the candidate's index is emitted and the candidate
//! closed. A still-open candidate at the end is emitted. This is a
//! deliberately narrow local-contrast detector; the two-sample forward
//! baseline is kept exactly as it stands.

use vstd::prelude::*;

verus! {

/// The value at `i` exceeds its local baseline: twice the value against
/// the sum of the clamped two-sample forward window. At the last index
/// the baseline is the value itself, so nothing exceeds it.
pub open spec fn above_baseline(s: Seq<u64>, i: int) -> bool {
    i + 1 < s.len() && 2 * s[i] > s[i] + s[i + 1]
}

/// The value at `i` falls strictly below its local baseline.
pub open spec fn below_baseline(s: Seq<u64>, i: int) -> bool {
    i + 1 < s.len() && 2 * s[i] < s[i] + s[i + 1]
}

/// The scan from position `i` onward with an open candidate `cand`
/// (index and value): the sequence of indices it will emit.
pub open spec fn scan_peaks(s: Seq<u64>, i: int, cand: Option<(int, u64)>) -> Seq<int>
    decreases s.len() - i,
{
    if i < 0 || i >= s.len() {
        match cand {
            Option::Some(c) => seq![c.0],
            Option::None => Seq::empty(),
        }
    } else {
        let v = s[i];
        match cand {
            Option::None => {
                if above_baseline(s, i) {
                    scan_peaks(s, i + 1, Option::Some((i, v)))
                } else {
                    scan_peaks(s, i + 1, Option::None)
                }
            },
            Option::Some(c) => {
                if above_baseline(s, i) && v > c.1 {
                    scan_peaks(s, i + 1, Option::Some((i, v)))
                } else if below_baseline(s, i) {
                    seq![c.0] + scan_peaks(s, i + 1, Option::None)
                } else {
                    scan_peaks(s, i + 1, Option::Some(c))
                }
            },
        }
    }
}

/// The peak indices of a magnitude array.
pub open spec fn peaks_spec(s: Seq<u64>) -> Seq<int> {
    scan_peaks(s, 0, Option::None)
}

/// Peak indices of `magnitudes`, exactly `peaks_spec`.
pub fn find_peaks(magnitudes: &Vec<u64>) -> (r: Vec<usize>)
    ensures
        r@.map_values(|x: usize| x as int) == peaks_spec(magnitudes@),
        forall|k: int| 0 <= k < r@.len() ==> (#[trigger] r@[k]) < magnitudes@.len(),
{
    let n = magnitudes.len();
    let mut r: Vec<usize> = Vec::new();
    let mut cand_idx: usize = 0;
    let mut cand_val: u64 = 0;
    let mut open: bool = false;
    let mut i: usize = 0;
    while i < n
        invariant
            n == magnitudes@.len(),
            0 <= i <= n,
            open ==> cand_idx < i && cand_val == magnitudes@[cand_idx as int],
            peaks_spec(magnitudes@) == r@.map_values(|x: usize| x as int) + scan_peaks(
                magnitudes@,
                i as int,
                if open {
                    Option::Some((cand_idx as int, cand_val))
                } else {
                    Option::None
                },
            ),
            forall|k: int| 0 <= k < r@.len() ==> (#[trigger] r@[k]) < n,
        decreases n - i,
    {
        let ghost prev_r = r@;
        let ghost prev_i = i as int;
        let ghost prev_cand: Option<(int, u64)> = if open {
            Option::Some((cand_idx as int, cand_val))
        } else {
            Option::None
        };
        let v = magnitudes[i];
        let mut above: bool = false;
        let mut below: bool = false;
        if i + 1 < n {
            let w = magnitudes[i + 1];
            let two_v = 2 * (v as u128);
            let sum = (v as u128) + (w as u128);
            above = two_v > sum;
            below = two_v < sum;
        }
        proof {
            assert(above == above_baseline(magnitudes@, prev_i));
            assert(below == below_baseline(magnitudes@, prev_i));
        }
        if above && (!open || v > cand_val) {
            cand_idx = i;
            cand_val = v;
            open = true;
        } else if below && open {
            r.push(cand_idx);
            open = false;
            proof {
                let f = |x: usize| x as int;
                let rest = scan_peaks(magnitudes@, prev_i + 1, Option::None);
                assert(r@.map_values(f) =~= prev_r.map_values(f).push(prev_cand->Some_0.0));
                assert(prev_r.map_values(f) + (seq![prev_cand->Some_0.0] + rest) =~= r@.map_values(
                    f,
                ) + rest);
            }
        }
        i = i + 1;
    }
    if open {
        let ghost prev_r = r@;
        r.push(cand_idx);
        proof {
            let f = |x: usize| x as int;
            assert(prev_r.map_values(f) + seq![cand_idx as int] =~= r@.map_values(f));
        }
    } else {
        proof {
            let f = |x: usize| x as int;
            assert(r@.map_values(f) + Seq::<int>::empty() =~= r@.map_values(f));
        }
    }
    r
}

/// Over a strictly rising stretch with no open candidate the scan emits
/// nothing and stays closed.
proof fn lemma_scan_rise(s: Seq<u64>, a: int, b: int)
    requires
        0 <= a <= b < s.len(),
        forall|i: int| a <= i < b ==> #[trigger] s[i] < s[i + 1],
    ensures
        scan_peaks(s, a, Option::None) == scan_peaks(s, b, Option::None),
    decreases b - a,
{
    if a < b {
        assert(s[a] < s[a + 1]);
        assert(below_baseline(s, a));
        assert(!above_baseline(s, a));
        assert(scan_peaks(s, a, Option::None) == scan_peaks(s, a + 1, Option::None));
        lemma_scan_rise(s, a + 1, b);
    }
}

/// Over a falling stretch an open candidate at least as large as every
/// value on it is kept unchanged.
proof fn lemma_scan_fall(s: Seq<u64>, a: int, b: int, c: (int, u64))
    requires
        0 <= a <= b <= s.len(),
        forall|i: int| a <= i < b ==> (i + 1 < s.len() ==> #[trigger] s[i] > s[i + 1]),
        forall|i: int| a <= i < b ==> #[trigger] s[i] <= c.1,
    ensures
        scan_peaks(s, a, Option::Some(c)) == scan_peaks(s, b, Option::Some(c)),
    decreases b - a,
{
    if a < b {
        assert(!below_baseline(s, a));
        assert(scan_peaks(s, a, Option::Some(c)) == scan_peaks(s, a + 1, Option::Some(c)));
        lemma_scan_fall(s, a + 1, b, c);
    }
}

/// Along a strictly falling stretch no value exceeds the first.
proof fn lemma_fall_max(s: Seq<u64>, a: int, b: int)
    requires
        0 <= a <= b < s.len(),
        forall|i: int| a <= i < b ==> #[trigger] s[i] > s[i + 1],
    ensures
        forall|j: int| a <= j <= b ==> #[trigger] s[j] <= s[a],
    decreases b - a,
{
    if a < b {
        lemma_fall_max(s, a + 1, b);
    }
}

/// One strictly unimodal bump from a closed state: rising to `p`, then
/// falling until the value at `b` rises again, the scan emits exactly
/// `p` there and continues closed.
proof fn lemma_bump_emitted(s: Seq<u64>, a: int, p: int, b: int)
    requires
        0 <= a <= p < b < s.len(),
        forall|i: int| a <= i < p ==> #[trigger] s[i] < s[i + 1],
        forall|i: int| p <= i < b ==> #[trigger] s[i] > s[i + 1],
        below_baseline(s, b),
    ensures
        scan_peaks(s, a, Option::None) == seq![p] + scan_peaks(s, b + 1, Option::None),
{
    lemma_scan_rise(s, a, p);
    assert(s[p] > s[p + 1]);
    assert(above_baseline(s, p));
    assert(scan_peaks(s, p, Option::None) == scan_peaks(s, p + 1, Option::Some((p, s[p]))));
    lemma_fall_max(s, p, b);
    lemma_scan_fall(s, p + 1, b, (p, s[p]));
    assert(scan_peaks(s, b, Option::Some((p, s[p]))) == seq![p] + scan_peaks(
        s,
        b + 1,
        Option::None,
    ));
}

/// One strictly unimodal bump from a closed state that falls through the
/// end of the array: the scan emits exactly `p` when it runs out.
proof fn lemma_bump_final(s: Seq<u64>, a: int, p: int)
    requires
        0 <= a <= p < s.len() - 1,
        forall|i: int| a <= i < p ==> #[trigger] s[i] < s[i + 1],
        forall|i: int| p <= i < s.len() - 1 ==> #[trigger] s[i] > s[i + 1],
    ensures
        scan_peaks(s, a, Option::None) == seq![p],
{
    lemma_scan_rise(s, a, p);
    assert(s[p] > s[p + 1]);
    assert(above_baseline(s, p));
    assert(scan_peaks(s, p, Option::None) == scan_peaks(s, p + 1, Option::Some((p, s[p]))));
    lemma_fall_max(s, p, s.len() - 1);
    lemma_scan_fall(s, p + 1, s.len() as int, (p, s[p]));
    assert(scan_peaks(s, s.len() as int, Option::Some((p, s[p]))) == seq![p]);
}

/// Two separated strictly unimodal bumps, each top above its local
/// baseline, yield exactly the two indices of their maxima: the first
/// bump's top is emitted when the valley rises again, the second at the
/// end of the array.
#[verifier::rlimit(100)]
pub proof fn lemma_two_bump_peaks(s: Seq<u64>, p1: int, v1: int, p2: int)
    requires
        0 <= p1 < v1 < p2 < s.len() - 1,
        forall|i: int| 0 <= i < p1 ==> #[trigger] s[i] < s[i + 1],
        forall|i: int| p1 <= i < v1 ==> #[trigger] s[i] > s[i + 1],
        forall|i: int| v1 <= i < p2 ==> #[trigger] s[i] < s[i + 1],
        forall|i: int| p2 <= i < s.len() - 1 ==> #[trigger] s[i] > s[i + 1],
    ensures
        peaks_spec(s) == seq![p1, p2],
{
    assert(s[v1] < s[v1 + 1]);
    assert(below_baseline(s, v1));
    lemma_bump_emitted(s, 0, p1, v1);
    lemma_bump_final(s, v1 + 1, p2);
    assert(peaks_spec(s) == seq![p1] + seq![p2]);
    assert(seq![p1] + seq![p2] =~= seq![p1, p2]);
}

} // verus!
