//! Integer helpers for the fixed-point arithmetic of the crate.

use vstd::prelude::*;

verus! {

/// Division truncating toward zero, as Rust's `/` computes it on
/// signed integers; both cases divide a non-negative numerator.
pub open spec fn sdiv(a: int, b: int) -> int {
    if a >= 0 {
        a / b
    } else {
        -((-a) / b)
    }
}

/// Truncating division, executable form.
pub fn sdiv_fp(a: i64, b: i64) -> (q: i64)
    requires
        i64::MIN < a,
        0 < b,
    ensures
        q == sdiv(a as int, b as int),
{
    if a >= 0 {
        a / b
    } else {
        proof {
            vstd::arithmetic::div_mod::lemma_div_pos_is_pos(-(a as int), b as int);
            vstd::arithmetic::div_mod::lemma_div_is_ordered_by_denominator(-(a as int), 1, b as int);
        }
        -((-a) / b)
    }
}

/// A scaled-down product keeps the scaling factor's bound: when
/// `|c| <= s`, `sdiv(m * c, s)` lies in [-m, m].
pub proof fn lemma_sdiv_scaled_bounds(m: int, c: int, s: int)
    requires
        0 <= m,
        -s <= c <= s,
        0 < s,
    ensures
        -m <= sdiv(m * c, s) <= m,
{
    if c >= 0 {
        crate::trig::lemma_scaled_frac_bounds(m, c, s);
        assert(m * c >= 0) by (nonlinear_arith)
            requires
                m >= 0,
                c >= 0,
        ;
    } else {
        assert(m * c <= 0) by (nonlinear_arith)
            requires
                m >= 0,
                c <= 0,
        ;
        assert(-(m * c) == m * (-c)) by (nonlinear_arith);
        crate::trig::lemma_scaled_frac_bounds(m, -c, s);
        if m * c == 0 {
            assert(sdiv(m * c, s) == 0) by {
                assert(0int / s == 0);
            }
        }
    }
}

/// The floor of the square root: `r * r <= n < (r + 1) * (r + 1)`.
pub fn isqrt(n: u64) -> (r: u64)
    ensures
        r * r <= n < (r + 1) * (r + 1),
{
    let mut lo: u64 = 0;
    let mut hi: u64 = 4_294_967_296;
    proof {
        assert((4_294_967_296 as int) * (4_294_967_296 as int) > n as int) by (nonlinear_arith);
    }
    while lo + 1 < hi
        invariant
            lo < hi <= 4_294_967_296,
            lo * lo <= n,
            (n as int) < (hi as int) * (hi as int),
        decreases hi - lo,
    {
        let mid = lo + (hi - lo) / 2;
        assert(mid < 4_294_967_296);
        assert((mid as int) * (mid as int) < (4_294_967_296 as int) * (4_294_967_296 as int))
            by (nonlinear_arith)
            requires
                0 <= (mid as int) < 4_294_967_296,
        ;
        if mid * mid <= n {
            lo = mid;
        } else {
            hi = mid;
        }
    }
    proof {
        assert(hi == lo + 1);
    }
    lo
}

/// The floor of the square root is monotone in its argument: a bound
/// on `n` bounds `isqrt(n)`.  Stated over the postcondition shape of
/// `isqrt`: if `r * r <= n` and `n <= b * b` then `r <= b`.
pub proof fn lemma_sqrt_le(r: int, n: int, b: int)
    requires
        0 <= r,
        0 <= b,
        r * r <= n,
        n <= b * b,
    ensures
        r <= b,
{
    if r > b {
        assert(r * r > b * b) by (nonlinear_arith)
            requires
                0 <= b < r,
        ;
    }
}

} // verus!
