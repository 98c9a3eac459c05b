//! The 2D vector type of the physics core.
//!
//! A `Vec2d` is held in polar form: a non-negative magnitude `mag` in
//! thousandths of a unit, and a direction `ang` in micro-degrees,
//! normalized into (-HALF_TURN, HALF_TURN].  The zero vector is
//! canonical (`mag == 0`, `ang == 0`), so derived equality is value
//! equality.  In this representation the polar operations
//! (construction, magnitude, direction, rotation, lengthening,
//! scaling, angle difference) are exact; the cartesian operations
//! (components, addition, dot product) go through the fixed-point
//! trigonometry of `trig` and are specified exactly against its spec
//! functions.
//!
//! The frame is fixed: the x axis points North, the y axis East, so
//! angle 0 means North and positive angles rotate toward East.

use crate::angle::{
    lemma_norm_angle_bounds, lemma_norm_angle_congruent, lemma_norm_angle_neg, norm_angle,
    norm_angle_i64, FULL_TURN, HALF_TURN,
};
use crate::numeric::{isqrt, lemma_sdiv_scaled_bounds, lemma_sqrt_le, sdiv, sdiv_fp};
use crate::trig::{atan2_fp, cos_fp, sin_fp, spec_atan2, spec_cos, spec_sin, TRIG_ONE};
use vstd::arithmetic::div_mod::{lemma_div_is_ordered, lemma_div_pos_is_pos};
use vstd::prelude::*;

verus! {

/// Thousandths of a unit: every length and speed in the crate is an
/// integer scaled by this factor.
pub const SCALE: i64 = 1000;

/// Largest magnitude a well-formed vector carries; keeps all the
/// fixed-point products of the crate inside `i64`.
pub const MAX_MAG: i64 = 1_000_000_000;

/// Largest cartesian component the constructor accepts, and the
/// largest sum of magnitudes `add` accepts: the resulting magnitude
/// is then provably at most `MAX_MAG`.
pub const MAX_COORD: i64 = 700_000_000;

/// Largest rotation delta accepted in one call.
pub const MAX_SWING: i64 = 1_000_000_000_000_000;

/// The magnitude of a vector built from polar coordinates: the
/// radius, clamped below at zero.
pub open spec fn polar_mag(r: int) -> int {
    if r <= 0 {
        0
    } else {
        r
    }
}

/// The direction of a vector built from polar coordinates: the given
/// angle normalized, or the zero vector's conventional 0 when the
/// clamped radius vanishes.
pub open spec fn polar_dir(r: int, phi: int) -> int {
    if r <= 0 {
        0
    } else {
        norm_angle(phi)
    }
}

/// The North (x) component of a polar pair, in thousandths of a
/// unit, truncated toward zero.
pub open spec fn polar_x(mag: int, ang: int) -> int {
    sdiv(mag * spec_cos(ang), TRIG_ONE as int)
}

/// The East (y) component of a polar pair, in thousandths of a unit,
/// truncated toward zero.
pub open spec fn polar_y(mag: int, ang: int) -> int {
    sdiv(mag * spec_sin(ang), TRIG_ONE as int)
}

/// An immutable 2D vector in polar fixed-point form.
#[derive(Clone, Copy, PartialEq, Eq, Structural, Debug)]
pub struct Vec2d {
    /// Magnitude in thousandths of a unit; never negative.
    pub mag: i64,
    /// Direction in micro-degrees, in (-HALF_TURN, HALF_TURN];
    /// 0 for the zero vector, whose direction is a convention.
    pub ang: i64,
}

impl Vec2d {
    /// Well-formedness: bounded non-negative magnitude, normalized
    /// direction, canonical zero.
    pub open spec fn wf(self) -> bool {
        &&& 0 <= self.mag <= MAX_MAG
        &&& -HALF_TURN < self.ang <= HALF_TURN
        &&& self.mag == 0 ==> self.ang == 0
    }

    /// The canonical zero vector.
    pub open spec fn zero() -> Vec2d {
        Vec2d { mag: 0, ang: 0 }
    }

    /// The North (x) component in thousandths of a unit, truncated
    /// toward zero.
    pub open spec fn spec_x(self) -> int {
        polar_x(self.mag as int, self.ang as int)
    }

    /// The East (y) component in thousandths of a unit, truncated
    /// toward zero.
    pub open spec fn spec_y(self) -> int {
        polar_y(self.mag as int, self.ang as int)
    }

    /// Construct a new vector from cartesian components, in
    /// thousandths of a unit.  The magnitude is the integer square
    /// root of `x*x + y*y` and the direction is the fixed-point
    /// two-argument arctangent.
    pub fn new(x: i64, y: i64) -> (v: Vec2d)
        requires
            -MAX_COORD <= x <= MAX_COORD,
            -MAX_COORD <= y <= MAX_COORD,
        ensures
            v.wf(),
            v.mag * v.mag <= x * x + y * y < (v.mag + 1) * (v.mag + 1),
            v.ang == spec_atan2(y as int, x as int),
            x == 0 && y == 0 ==> v == Self::zero(),
    {
        proof {
            assert(x * x <= 490_000_000_000_000_000 && 0 <= x * x) by (nonlinear_arith)
                requires
                    -700_000_000 <= x <= 700_000_000,
            ;
            assert(y * y <= 490_000_000_000_000_000 && 0 <= y * y) by (nonlinear_arith)
                requires
                    -700_000_000 <= y <= 700_000_000,
            ;
        }
        let n: u64 = (x * x + y * y) as u64;
        let root = isqrt(n);
        proof {
            lemma_sqrt_le(root as int, n as int, MAX_MAG as int);
            if n == 0 {
                assert(root * root <= 0);
                assert(root == 0) by (nonlinear_arith)
                    requires
                        root * root <= 0,
                ;
                assert(x == 0) by (nonlinear_arith)
                    requires
                        x * x <= 0,
                ;
                assert(y == 0) by (nonlinear_arith)
                    requires
                        y * y <= 0,
                ;
            } else {
                assert(root >= 1) by (nonlinear_arith)
                    requires
                        n >= 1,
                        (root + 1) * (root + 1) > n,
                        root >= 0,
                ;
            }
        }
        let a = atan2_fp(y, x);
        Vec2d { mag: root as i64, ang: a }
    }

    /// Construct a new vector from polar coordinates: a radius in
    /// thousandths of a unit and an angle in micro-degrees.  A
    /// negative radius is clamped to zero, yielding the zero vector;
    /// it is never reinterpreted as a reversed direction.
    pub fn from_polar(r: i64, phi: i64) -> (v: Vec2d)
        requires
            r <= MAX_MAG,
        ensures
            v.wf(),
            v.mag == polar_mag(r as int),
            v.ang == polar_dir(r as int, phi as int),
            r <= 0 ==> v == Self::zero(),
    {
        if r <= 0 {
            Vec2d { mag: 0, ang: 0 }
        } else {
            Vec2d { mag: r, ang: norm_angle_i64(phi) }
        }
    }

    /// The vector inverse: same magnitude, direction turned by a half
    /// turn.  The zero vector is its own inverse.
    pub fn neg(&self) -> (v: Vec2d)
        requires
            self.wf(),
        ensures
            v.wf(),
            v.mag == self.mag,
            self.mag == 0 ==> v == *self,
            self.mag > 0 ==> v.ang == norm_angle(self.ang + HALF_TURN),
    {
        if self.mag == 0 {
            *self
        } else {
            Vec2d { mag: self.mag, ang: norm_angle_i64(self.ang + HALF_TURN) }
        }
    }

    /// The cartesian components (North, East) in thousandths of a
    /// unit; each is bounded by the magnitude.
    pub fn components(&self) -> (xy: (i64, i64))
        requires
            self.wf(),
        ensures
            xy.0 == self.spec_x(),
            xy.1 == self.spec_y(),
            -self.mag <= xy.0 <= self.mag,
            -self.mag <= xy.1 <= self.mag,
    {
        let c = cos_fp(self.ang);
        let s = sin_fp(self.ang);
        proof {
            lemma_sdiv_scaled_bounds(self.mag as int, c as int, TRIG_ONE as int);
            lemma_sdiv_scaled_bounds(self.mag as int, s as int, TRIG_ONE as int);
        }
        let x = sdiv_fp(self.mag * c, TRIG_ONE);
        let y = sdiv_fp(self.mag * s, TRIG_ONE);
        (x, y)
    }

    /// Add two vectors.  A zero operand returns the other operand
    /// exactly; otherwise the sum is formed from the exact sums of
    /// the fixed-point cartesian components.
    pub fn add(&self, u: &Vec2d) -> (v: Vec2d)
        requires
            self.wf(),
            u.wf(),
            self.mag + u.mag <= MAX_COORD,
        ensures
            v.wf(),
            self.mag == 0 ==> v == *u,
            self.mag != 0 && u.mag == 0 ==> v == *self,
            self.mag != 0 && u.mag != 0 ==> ({
                let x = self.spec_x() + u.spec_x();
                let y = self.spec_y() + u.spec_y();
                &&& v.mag * v.mag <= x * x + y * y < (v.mag + 1) * (v.mag + 1)
                &&& v.ang == spec_atan2(y, x)
            }),
    {
        if self.mag == 0 {
            return *u;
        }
        if u.mag == 0 {
            return *self;
        }
        let (x1, y1) = self.components();
        let (x2, y2) = u.components();
        Vec2d::new(x1 + x2, y1 + y2)
    }

    /// The dot product, in thousandths of a squared unit: the product
    /// of the magnitudes and the cosine of the angle between, scaled
    /// down by `TRIG_ONE` and then by `SCALE`, truncating toward zero
    /// at each step.
    pub fn dot(&self, other: &Vec2d) -> (d: i64)
        requires
            self.wf(),
            other.wf(),
        ensures
            d == Self::spec_dot(*self, *other),
    {
        let dang = norm_angle_i64(self.ang - other.ang);
        let c = cos_fp(dang);
        proof {
            lemma_sdiv_scaled_bounds(self.mag as int, c as int, TRIG_ONE as int);
        }
        let t = sdiv_fp(self.mag * c, TRIG_ONE);
        proof {
            lemma_sdiv_scaled_bounds(other.mag as int, t as int, MAX_MAG as int);
            assert(t * other.mag == other.mag * t) by (nonlinear_arith);
        }
        sdiv_fp(t * other.mag, SCALE)
    }

    /// The dot product of two well-formed vectors, in the fixed-point
    /// arithmetic of the crate.
    pub open spec fn spec_dot(a: Vec2d, b: Vec2d) -> int {
        let c = spec_cos(norm_angle(a.ang - b.ang));
        sdiv(sdiv(a.mag * c, TRIG_ONE as int) * b.mag, SCALE as int)
    }

    /// The magnitude (vector length) in thousandths of a unit.
    pub fn r(&self) -> (m: i64)
        ensures
            m == self.mag,
    {
        self.mag
    }

    /// The magnitude, under its other traditional name.
    pub fn norm(&self) -> (m: i64)
        ensures
            m == self.mag,
    {
        self.mag
    }

    /// The direction in micro-degrees, 0 meaning North; 0 for the
    /// zero vector by convention.
    pub fn phi(&self) -> (a: i64)
        ensures
            a == self.ang,
    {
        self.ang
    }

    /// The direction, under its other traditional name.
    pub fn dir(&self) -> (a: i64)
        ensures
            a == self.ang,
    {
        self.ang
    }

    /// The signed angle from `other` to `self`: the difference of the
    /// two directions, normalized into (-HALF_TURN, HALF_TURN] by at
    /// most one whole-turn correction.
    pub fn angle(&self, other: &Vec2d) -> (d: i64)
        requires
            self.wf(),
            other.wf(),
        ensures
            d == norm_angle(self.ang - other.ang),
            -HALF_TURN < d <= HALF_TURN,
    {
        norm_angle_i64(self.ang - other.ang)
    }

    /// Rotate the vector by `delta` micro-degrees, keeping its
    /// magnitude.  Rotating the zero vector leaves it unchanged.
    pub fn rotate(&self, delta: i64) -> (v: Vec2d)
        requires
            self.wf(),
            -MAX_SWING <= delta <= MAX_SWING,
        ensures
            v.wf(),
            v.mag == self.mag,
            self.mag == 0 ==> v == *self,
            self.mag > 0 ==> v.ang == norm_angle(self.ang + delta),
    {
        if self.mag == 0 {
            *self
        } else {
            Vec2d { mag: self.mag, ang: norm_angle_i64(self.ang + delta) }
        }
    }

    /// Lengthen (or, with a negative amount, shorten) the vector,
    /// keeping its direction.  The magnitude is clamped at zero: a
    /// shortening past zero yields the zero vector, never a reversed
    /// one.
    pub fn increase(&self, amount: i64) -> (v: Vec2d)
        requires
            self.wf(),
            -MAX_MAG <= amount <= MAX_MAG - self.mag,
        ensures
            v.wf(),
            self.mag + amount <= 0 ==> v == Self::zero(),
            self.mag + amount > 0 ==> v.mag == self.mag + amount && v.ang == self.ang,
    {
        let m = self.mag + amount;
        if m <= 0 {
            Vec2d { mag: 0, ang: 0 }
        } else {
            Vec2d { mag: m, ang: self.ang }
        }
    }

    /// Multiply the vector by a scalar in thousandths: the magnitude
    /// scales by `|factor| / SCALE` (truncating), and a negative
    /// factor reverses the direction.
    pub fn multiply(&self, factor: i64) -> (v: Vec2d)
        requires
            self.wf(),
            i64::MIN < factor,
            self.mag * (if factor < 0 { -factor } else { factor as int }) <= MAX_MAG * SCALE,
        ensures
            v.wf(),
            v.mag == self.mag * (if factor < 0 { -factor } else { factor as int }) / (
            SCALE as int),
            v.mag == 0 ==> v == Self::zero(),
            v.mag > 0 && factor >= 0 ==> v.ang == self.ang,
            v.mag > 0 && factor < 0 ==> v.ang == norm_angle(self.ang + HALF_TURN),
    {
        let af = if factor < 0 {
            -factor
        } else {
            factor
        };
        proof {
            assert(0 <= self.mag * af) by (nonlinear_arith)
                requires
                    0 <= self.mag,
                    0 <= af,
            ;
            lemma_div_pos_is_pos(self.mag * af, SCALE as int);
            lemma_div_is_ordered(self.mag * af, MAX_MAG * SCALE, SCALE as int);
            assert((MAX_MAG * SCALE) as int / (SCALE as int) == MAX_MAG);
        }
        let m = (self.mag * af) / SCALE;
        if m == 0 {
            Vec2d { mag: 0, ang: 0 }
        } else if factor >= 0 {
            Vec2d { mag: m, ang: self.ang }
        } else {
            Vec2d { mag: m, ang: norm_angle_i64(self.ang + HALF_TURN) }
        }
    }
}

/// For every non-negative radius and every angle, the polar
/// construction round-trips: the magnitude of `from_polar(r, phi)`
/// is exactly `r`, and (for a non-zero radius) its direction differs
/// from `phi` by a whole number of turns and lies in the canonical
/// range.  (A zero radius collapses the direction to the zero
/// vector's conventional 0.)
pub proof fn lemma_polar_round_trip(r: int, phi: int)
    requires
        0 <= r,
    ensures
        polar_mag(r) == r,
        r > 0 ==> (polar_dir(r, phi) - phi) % (FULL_TURN as int) == 0,
        r > 0 ==> -HALF_TURN < polar_dir(r, phi) <= HALF_TURN,
{
    lemma_norm_angle_congruent(phi);
    lemma_norm_angle_bounds(phi);
}

/// For every pair of vectors, the signed angle between them lies in
/// (-HALF_TURN, HALF_TURN], the fixed-point form of (-pi, pi].
pub proof fn lemma_angle_in_bounds(v: Vec2d, u: Vec2d)
    ensures
        -HALF_TURN < norm_angle(v.ang - u.ang) <= HALF_TURN,
{
    lemma_norm_angle_bounds(v.ang - u.ang);
}

/// Swapping the operands of the angle difference negates it, except
/// at the half-turn boundary, where both orders give exactly a half
/// turn (the +180/-180 flip).
pub proof fn lemma_angle_antisymmetric(v: Vec2d, u: Vec2d)
    requires
        v.wf(),
        u.wf(),
    ensures
        norm_angle(v.ang - u.ang) != HALF_TURN ==> norm_angle(u.ang - v.ang) == -norm_angle(
            v.ang - u.ang,
        ),
        norm_angle(v.ang - u.ang) == HALF_TURN ==> norm_angle(u.ang - v.ang) == HALF_TURN,
{
    lemma_norm_angle_neg(v.ang - u.ang);
    assert(u.ang - v.ang == -(v.ang - u.ang));
}

} // verus!
