//! Angle arithmetic in micro-degrees.
//!
//! An angle is an `i64` counting millionths of a degree, so a full
//! turn is 360_000_000.  The canonical range of a normalized angle is
//! the half-open interval (-HALF_TURN, HALF_TURN], which corresponds
//! to (-pi, pi] in radians.

use vstd::arithmetic::div_mod::{
    lemma_fundamental_div_mod, lemma_fundamental_div_mod_converse_mod, lemma_mod_bound,
    lemma_mod_equivalence, lemma_mod_multiples_basic,
};
use vstd::prelude::*;

verus! {

/// Micro-degrees in one degree.
pub const MICRO_DEG: i64 = 1_000_000;

/// A quarter turn (90 degrees) in micro-degrees.
pub const QUARTER_TURN: i64 = 90_000_000;

/// A half turn (180 degrees) in micro-degrees.
pub const HALF_TURN: i64 = 180_000_000;

/// A full turn (360 degrees) in micro-degrees.
pub const FULL_TURN: i64 = 360_000_000;

/// The representative of `a` modulo a full turn that lies in the
/// canonical range (-HALF_TURN, HALF_TURN].
pub open spec fn norm_angle(a: int) -> int {
    let m = a % (FULL_TURN as int);
    if m > HALF_TURN {
        m - FULL_TURN
    } else {
        m
    }
}

/// A normalized angle always lies in (-HALF_TURN, HALF_TURN].
pub proof fn lemma_norm_angle_bounds(a: int)
    ensures
        -HALF_TURN < norm_angle(a) <= HALF_TURN,
{
    lemma_mod_bound(a, FULL_TURN as int);
}

/// Normalization only moves an angle by whole turns: the result is
/// congruent to the input modulo a full turn.
pub proof fn lemma_norm_angle_congruent(a: int)
    ensures
        (norm_angle(a) - a) % (FULL_TURN as int) == 0,
{
    let f = FULL_TURN as int;
    lemma_fundamental_div_mod(a, f);
    let q = a / f;
    assert(a % f - a == -q * f) by {
        assert(a == q * f + a % f);
        assert((-q) * f == -(q * f)) by (nonlinear_arith);
    }
    if a % f > HALF_TURN {
        assert(norm_angle(a) - a == (-q - 1) * f) by {
            assert((-q - 1) * f == -(q * f) - f) by (nonlinear_arith);
        }
        lemma_mod_multiples_basic(-q - 1, f);
    } else {
        lemma_mod_multiples_basic(-q, f);
    }
}

/// Normalization is determined by congruence: any value `x` in the
/// canonical range that differs from `a` by whole turns is `a`'s
/// normalization.
pub proof fn lemma_norm_angle_unique(a: int, x: int)
    requires
        -HALF_TURN < x <= HALF_TURN,
        (a - x) % (FULL_TURN as int) == 0,
    ensures
        norm_angle(a) == x,
{
    let f = FULL_TURN as int;
    lemma_mod_equivalence(a, x, f);
    assert(a % f == x % f);
    if x >= 0 {
        lemma_fundamental_div_mod_converse_mod(x, f, 0, x);
        assert(x % f == x);
    } else {
        lemma_fundamental_div_mod_converse_mod(x, f, -1, x + f);
        assert(x % f == x + f);
    }
}

/// A value already in the canonical range normalizes to itself.
pub proof fn lemma_norm_angle_identity(x: int)
    requires
        -HALF_TURN < x <= HALF_TURN,
    ensures
        norm_angle(x) == x,
{
    let f = FULL_TURN as int;
    lemma_mod_multiples_basic(0, f);
    lemma_norm_angle_unique(x, x);
}

/// Negating an angle negates its normalization, except on the
/// boundary: a half turn stays a half turn (the +180/-180 flip).
pub proof fn lemma_norm_angle_neg(a: int)
    ensures
        norm_angle(a) == HALF_TURN ==> norm_angle(-a) == HALF_TURN,
        norm_angle(a) != HALF_TURN ==> norm_angle(-a) == -norm_angle(a),
{
    let f = FULL_TURN as int;
    let x = norm_angle(a);
    lemma_norm_angle_bounds(a);
    lemma_norm_angle_congruent(a);
    lemma_mod_equivalence(x, a, f);
    assert((a - x) % f == 0) by {
        lemma_mod_equivalence(a, x, f);
    }
    if x == HALF_TURN {
        assert((-a - HALF_TURN) % f == 0) by {
            assert(-a - HALF_TURN == -(a - HALF_TURN) - FULL_TURN);
            lemma_fundamental_div_mod(a - HALF_TURN, f);
            let q = (a - HALF_TURN) / f;
            assert(a - HALF_TURN == q * f);
            assert(-a - HALF_TURN == (-q - 1) * f) by (nonlinear_arith)
                requires
                    a - HALF_TURN == q * f,
                    -a - HALF_TURN == -(a - HALF_TURN) - f,
            ;
            lemma_mod_multiples_basic(-q - 1, f);
        }
        lemma_norm_angle_unique(-a, HALF_TURN as int);
    } else {
        assert((-a - (-x)) % f == 0) by {
            assert(-a + x == -(a - x));
            lemma_fundamental_div_mod(a - x, f);
            let q = (a - x) / f;
            assert(a - x == q * f);
            assert(-a + x == (-q) * f) by (nonlinear_arith)
                requires
                    a - x == q * f,
            ;
            lemma_mod_multiples_basic(-q, f);
        }
        lemma_norm_angle_unique(-a, -x);
    }
}

/// Normalize an angle into (-HALF_TURN, HALF_TURN].
pub fn norm_angle_i64(a: i64) -> (r: i64)
    ensures
        r == norm_angle(a as int),
        -HALF_TURN < r <= HALF_TURN,
{
    let m = a % FULL_TURN;
    proof {
        let f = FULL_TURN as int;
        lemma_mod_bound(a as int, f);
        if a >= 0 {
            assert(m == a as int % f);
        } else {
            lemma_mod_bound(-(a as int), f);
            let k = (-(a as int)) % f;
            assert(m == -k);
            lemma_fundamental_div_mod(-(a as int), f);
            let q = (-(a as int)) / f;
            assert(-(a as int) == q * f + k);
            assert(a as int == (-q) * f + (-k)) by (nonlinear_arith)
                requires
                    -(a as int) == q * f + k,
            ;
            if k == 0 {
                lemma_fundamental_div_mod_converse_mod(a as int, f, -q, 0);
                assert(a as int % f == 0);
            } else {
                assert(a as int == (-q - 1) * f + (f - k)) by (nonlinear_arith)
                    requires
                        a as int == (-q) * f + (-k),
                ;
                lemma_fundamental_div_mod_converse_mod(a as int, f, -q - 1, f - k);
                assert(a as int % f == f - k);
            }
        }
    }
    if m > HALF_TURN {
        m - FULL_TURN
    } else if m <= -HALF_TURN {
        m + FULL_TURN
    } else {
        m
    }
}

} // verus!
