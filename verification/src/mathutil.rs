//! Exact integer helpers the pipeline's arithmetic is built on: a true
//! non-negative remainder, floor division for signed values, and two small
//! bounds lemmas for quotients.

use vstd::prelude::*;
use vstd::arithmetic::div_mod::{
    lemma_div_is_ordered, lemma_div_multiples_vanish, lemma_div_nonincreasing,
    lemma_div_pos_is_pos, lemma_fundamental_div_mod, lemma_fundamental_div_mod_converse,
    lemma_mod_bound, lemma_multiply_divide_lt,
};

verus! {

/// Quotients stay below a bound: with `b >= 1` and `a < m * b`, `a / b < m`.
pub proof fn lemma_div_below(a: int, b: int, m: int)
    requires
        b >= 1,
        a < m * b,
    ensures
        a / b < m,
{
    assert(m * b == b * m) by (nonlinear_arith);
    lemma_multiply_divide_lt(a, b, m);
}

/// Quotients stay above a bound: with `b >= 1` and `a >= m * b`, `a / b >= m`.
pub proof fn lemma_div_at_least(a: int, b: int, m: int)
    requires
        b >= 1,
        a >= m * b,
    ensures
        a / b >= m,
{
    assert(m * b == b * m) by (nonlinear_arith);
    lemma_div_is_ordered(b * m, a, b);
    lemma_div_multiples_vanish(m, b);
}

/// Wraps `t` into `[0, total)`: the true non-negative remainder, which also
/// sends negative times to the correct position inside the period.
pub fn wrap_time(t: i64, total: i64) -> (r: i64)
    requires
        total > 0,
    ensures
        r == t as int % total as int,
        0 <= r < total,
{
    proof {
        lemma_mod_bound(t as int, total as int);
    }
    if t >= 0 {
        let r = ((t as u64) % (total as u64)) as i64;
        r
    } else {
        let k = -(t + 1);
        let m = ((k as u64) % (total as u64)) as i64;
        proof {
            lemma_mod_bound(k as int, total as int);
            lemma_fundamental_div_mod(k as int, total as int);
            let q = k as int / total as int;
            assert((-q - 1) * total == -(total * q) - total) by (nonlinear_arith);
            lemma_fundamental_div_mod_converse(
                t as int,
                total as int,
                -q - 1,
                total as int - 1 - m,
            );
        }
        total - 1 - m
    }
}

/// Floor division (quotient rounded toward negative infinity) by a positive
/// divisor. The numerator magnitude is kept below `2^126` so that the
/// quotient fits back into an `i128`.
pub fn div_floor_i128(a: i128, b: i128) -> (q: i128)
    requires
        b > 0,
        -0x4000_0000_0000_0000_0000_0000_0000_0000 < a
            < 0x4000_0000_0000_0000_0000_0000_0000_0000,
    ensures
        q == a as int / b as int,
{
    if a >= 0 {
        proof {
            lemma_div_pos_is_pos(a as int, b as int);
            lemma_div_nonincreasing(a as int, b as int);
        }
        ((a as u128) / (b as u128)) as i128
    } else {
        let ua = ((-(a + 1)) as u128) + 1;
        let uq = ua / (b as u128);
        let ur = ua % (b as u128);
        proof {
            lemma_mod_bound(ua as int, b as int);
            lemma_fundamental_div_mod(ua as int, b as int);
            lemma_div_pos_is_pos(ua as int, b as int);
            lemma_div_nonincreasing(ua as int, b as int);
        }
        if ur == 0 {
            proof {
                assert((-(uq as int)) * b == -(b * (uq as int))) by (nonlinear_arith);
                lemma_fundamental_div_mod_converse(a as int, b as int, -(uq as int), 0);
            }
            -(uq as i128)
        } else {
            proof {
                assert((-(uq as int) - 1) * b + (b - ur) == -(b * (uq as int) + ur))
                    by (nonlinear_arith);
                lemma_fundamental_div_mod_converse(
                    a as int,
                    b as int,
                    -(uq as int) - 1,
                    b as int - ur as int,
                );
            }
            -(uq as i128) - 1
        }
    }
}

} // verus!
