//! Fixed-point arithmetic helpers: rounding division on wide integers and
//! clamping, with exact specifications over mathematical integers.

use vstd::prelude::*;
use vstd::arithmetic::div_mod::{
    lemma_div_is_ordered, lemma_fundamental_div_mod, lemma_fundamental_div_mod_converse_div,
    lemma_mod_bound,
};

verus! {

/// Magnitude bound under which `round_div_i128` is free of overflow.
pub const RDIV_MAX: i128 = 40_000_000_000_000_000_000_000_000_000_000_000_000;

/// Round-half-up division by a positive divisor.
pub open spec fn rdiv(n: int, d: int) -> int
    recommends
        d > 0,
{
    (2 * n + d) / (2 * d)
}

/// Clamping into a closed interval.
pub open spec fn clamp_spec(x: int, lo: int, hi: int) -> int
    recommends
        lo <= hi,
{
    if x < lo {
        lo
    } else if x > hi {
        hi
    } else {
        x
    }
}

/// Clamp `x` into `[lo, hi]`.
pub fn clamp_i64(x: i64, lo: i64, hi: i64) -> (r: i64)
    requires
        lo <= hi,
    ensures
        r == clamp_spec(x as int, lo as int, hi as int),
{
    if x < lo {
        lo
    } else if x > hi {
        hi
    } else {
        x
    }
}

/// Floor division of `n` by a positive `d`, computed with unsigned division.
pub fn div_floor_i128(n: i128, d: i128) -> (q: i128)
    requires
        0 < d,
        i128::MIN < n,
    ensures
        q == n as int / d as int,
{
    if n >= 0 {
        let q = (n as u128) / (d as u128);
        q as i128
    } else {
        let m = (-n) as u128;
        let du = d as u128;
        let qc = (m + du - 1) / du;
        proof {
            let mi = m as int;
            let di = d as int;
            let qi = qc as int;
            lemma_fundamental_div_mod(mi + di - 1, di);
            lemma_mod_bound(mi + di - 1, di);
            let r = (mi + di - 1) % di;
            assert(di * qi == mi + di - 1 - r);
            assert(qi <= mi) by (nonlinear_arith)
                requires
                    di >= 1,
                    mi >= 1,
                    qi >= 0,
                    di * qi <= mi + di - 1,
            ;
            assert(n as int == (-qi) * di + (di - 1 - r)) by (nonlinear_arith)
                requires
                    n as int == -mi,
                    di * qi == mi + di - 1 - r,
            ;
            lemma_fundamental_div_mod_converse_div(n as int, di, -qi, di - 1 - r);
        }
        -(qc as i128)
    }
}

/// Round-half-up division of `n` by a positive `d`.
pub fn round_div_i128(n: i128, d: i128) -> (q: i128)
    requires
        0 < d <= RDIV_MAX,
        -RDIV_MAX <= n <= RDIV_MAX,
    ensures
        q == rdiv(n as int, d as int),
{
    div_floor_i128(2 * n + d, 2 * d)
}

/// A rounded quotient is bounded whenever the numerator is bounded by the
/// same multiple of the divisor.
pub proof fn lemma_rdiv_bound(n: int, d: int, b: int)
    requires
        0 < d,
        0 <= b,
        -(b * d) <= n <= b * d,
    ensures
        -b <= rdiv(n, d) <= b,
{
    assert(2 * n + d <= 2 * d * b + d) by (nonlinear_arith)
        requires
            n <= b * d,
        ;
    assert(2 * d * b + d == (2 * d) * b + d) by (nonlinear_arith);
    lemma_div_is_ordered(2 * n + d, (2 * d) * b + d, 2 * d);
    lemma_fundamental_div_mod_converse_div((2 * d) * b + d, 2 * d, b, d);
    assert(rdiv(n, d) <= b);

    assert(2 * n + d >= (2 * d) * (-b) + d) by (nonlinear_arith)
        requires
            n >= -(b * d),
        ;
    lemma_div_is_ordered((2 * d) * (-b) + d, 2 * n + d, 2 * d);
    lemma_fundamental_div_mod_converse_div((2 * d) * (-b) + d, 2 * d, -b, d);
    assert(rdiv(n, d) >= -b);
}

} // verus!
