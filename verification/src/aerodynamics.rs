//! Aerodynamic forces on the sail.
//!
//! An empirical table gives a dimensionless force coefficient for an
//! angle of attack, sampled every 10 degrees from 0 to 100 degrees
//! and interpolated linearly; outside [0, 99] degrees the coefficient
//! is 0 (the flow model's envelope).  The eleventh sample (at 100
//! degrees) exists only to close the last interpolation segment.
//!
//! `lift` turns an apparent-wind vector, a sail area and a sail chord
//! direction into a force transverse to the flow; `drag` produces the
//! companion force parallel to the flow.  Coefficients are scaled by
//! `COEFF_ONE`; the air density is the simulation constant 1, not a
//! physical value.

use crate::angle::{norm_angle, norm_angle_i64, HALF_TURN, QUARTER_TURN};
use crate::geometry::{Vec2d, MAX_MAG, SCALE};
use crate::trig::lemma_scaled_frac_bounds;
use vstd::arithmetic::div_mod::{
    lemma_div_is_ordered, lemma_div_pos_is_pos, lemma_fundamental_div_mod_converse,
    lemma_mod_bound,
};
use vstd::math::abs;
use vstd::prelude::*;

verus! {

/// Fixed-point scale of the force coefficients: 1.0 is 1000.
pub const COEFF_ONE: i64 = 1000;

/// Width of one coefficient table segment: 10 degrees in
/// micro-degrees.
pub const COEFF_STEP: i64 = 10_000_000;

/// Upper edge of the sampled envelope: 99 degrees in micro-degrees.
pub const COEFF_EDGE: i64 = 99_000_000;

/// Largest apparent-wind magnitude the force computations accept.
pub const MAX_WIND: i64 = 100_000;

/// Largest sail area the force computations accept, in thousandths
/// of a squared unit.
pub const MAX_AREA: i64 = 100_000;

/// Lift coefficient samples at 0, 10, ..., 100 degrees of attack,
/// scaled by `COEFF_ONE`.
pub open spec fn lift_entry(i: int) -> int {
    if i == 0 {
        0
    } else if i == 1 {
        100
    } else if i == 2 {
        1300
    } else if i == 3 {
        1500
    } else if i == 4 {
        1400
    } else if i == 5 {
        1300
    } else if i == 6 {
        1000
    } else if i == 7 {
        800
    } else if i == 8 {
        400
    } else if i == 9 {
        300
    } else if i == 10 {
        150
    } else {
        0
    }
}

/// Drag coefficient samples at 0, 10, ..., 100 degrees of attack,
/// scaled by `COEFF_ONE`: small near zero attack and rising toward
/// broadside flow, the standard airfoil shape.
pub open spec fn drag_entry(i: int) -> int {
    if i == 0 {
        10
    } else if i == 1 {
        150
    } else if i == 2 {
        180
    } else if i == 3 {
        220
    } else if i == 4 {
        300
    } else if i == 5 {
        400
    } else if i == 6 {
        600
    } else if i == 7 {
        750
    } else if i == 8 {
        900
    } else if i == 9 {
        1200
    } else {
        1600
    }
}

fn lift_entry_at(i: u64) -> (c: i64)
    requires
        i <= 10,
    ensures
        c == lift_entry(i as int),
{
    if i == 0 {
        0
    } else if i == 1 {
        100
    } else if i == 2 {
        1300
    } else if i == 3 {
        1500
    } else if i == 4 {
        1400
    } else if i == 5 {
        1300
    } else if i == 6 {
        1000
    } else if i == 7 {
        800
    } else if i == 8 {
        400
    } else if i == 9 {
        300
    } else {
        150
    }
}

fn drag_entry_at(i: u64) -> (c: i64)
    requires
        i <= 10,
    ensures
        c == drag_entry(i as int),
{
    if i == 0 {
        10
    } else if i == 1 {
        150
    } else if i == 2 {
        180
    } else if i == 3 {
        220
    } else if i == 4 {
        300
    } else if i == 5 {
        400
    } else if i == 6 {
        600
    } else if i == 7 {
        750
    } else if i == 8 {
        900
    } else if i == 9 {
        1200
    } else {
        1600
    }
}

/// Every lift sample lies in [0, 1500].
pub proof fn lemma_lift_entry_bounds(i: int)
    ensures
        0 <= lift_entry(i) <= 1500,
{
}

/// Every drag sample lies in [0, 1600].
pub proof fn lemma_drag_entry_bounds(i: int)
    ensures
        0 <= drag_entry(i) <= 1600,
{
}

/// The lift coefficient for an angle of attack in micro-degrees: 0
/// outside [0, COEFF_EDGE], otherwise linear interpolation between
/// the two enclosing table samples.
pub open spec fn spec_lift_coefficient(a: int) -> int {
    if a < 0 || a > COEFF_EDGE {
        0
    } else {
        let i = a / (COEFF_STEP as int);
        let f = a % (COEFF_STEP as int);
        let lo = lift_entry(i);
        let hi = lift_entry(i + 1);
        if hi >= lo {
            lo + (hi - lo) * f / (COEFF_STEP as int)
        } else {
            lo - (lo - hi) * f / (COEFF_STEP as int)
        }
    }
}

/// The drag coefficient, interpolated the same way from the drag
/// table.
pub open spec fn spec_drag_coefficient(a: int) -> int {
    if a < 0 || a > COEFF_EDGE {
        0
    } else {
        let i = a / (COEFF_STEP as int);
        let f = a % (COEFF_STEP as int);
        let lo = drag_entry(i);
        let hi = drag_entry(i + 1);
        if hi >= lo {
            lo + (hi - lo) * f / (COEFF_STEP as int)
        } else {
            lo - (lo - hi) * f / (COEFF_STEP as int)
        }
    }
}

/// The lift coefficient of an angle of attack in micro-degrees.
pub fn lift_coefficient(angle_of_attack: i64) -> (c: i64)
    ensures
        c == spec_lift_coefficient(angle_of_attack as int),
        0 <= c <= 1500,
{
    if angle_of_attack < 0 || angle_of_attack > COEFF_EDGE {
        return 0;
    }
    let i = angle_of_attack / COEFF_STEP;
    let f = angle_of_attack % COEFF_STEP;
    proof {
        let s = COEFF_STEP as int;
        lemma_mod_bound(angle_of_attack as int, s);
        lemma_div_pos_is_pos(angle_of_attack as int, s);
        lemma_div_is_ordered(angle_of_attack as int, COEFF_EDGE as int, s);
        assert((COEFF_EDGE as int) / s == 9);
        lemma_lift_entry_bounds(i as int);
        lemma_lift_entry_bounds(i as int + 1);
    }
    let lo = lift_entry_at(i as u64);
    let hi = lift_entry_at((i + 1) as u64);
    if hi >= lo {
        proof {
            lemma_scaled_frac_bounds(hi as int - lo as int, f as int, COEFF_STEP as int);
        }
        lo + ((hi - lo) * f) / COEFF_STEP
    } else {
        proof {
            lemma_scaled_frac_bounds(lo as int - hi as int, f as int, COEFF_STEP as int);
        }
        lo - ((lo - hi) * f) / COEFF_STEP
    }
}

/// The drag coefficient of an angle of attack in micro-degrees.
pub fn drag_coefficient(angle_of_attack: i64) -> (c: i64)
    ensures
        c == spec_drag_coefficient(angle_of_attack as int),
        0 <= c <= 1600,
{
    if angle_of_attack < 0 || angle_of_attack > COEFF_EDGE {
        return 0;
    }
    let i = angle_of_attack / COEFF_STEP;
    let f = angle_of_attack % COEFF_STEP;
    proof {
        let s = COEFF_STEP as int;
        lemma_mod_bound(angle_of_attack as int, s);
        lemma_div_pos_is_pos(angle_of_attack as int, s);
        lemma_div_is_ordered(angle_of_attack as int, COEFF_EDGE as int, s);
        assert((COEFF_EDGE as int) / s == 9);
        lemma_drag_entry_bounds(i as int);
        lemma_drag_entry_bounds(i as int + 1);
    }
    let lo = drag_entry_at(i as u64);
    let hi = drag_entry_at((i + 1) as u64);
    if hi >= lo {
        proof {
            lemma_scaled_frac_bounds(hi as int - lo as int, f as int, COEFF_STEP as int);
        }
        lo + ((hi - lo) * f) / COEFF_STEP
    } else {
        proof {
            lemma_scaled_frac_bounds(lo as int - hi as int, f as int, COEFF_STEP as int);
        }
        lo - ((lo - hi) * f) / COEFF_STEP
    }
}

/// The signed angle of attack: the angle from the sail chord
/// direction to the reversed wind (the flow the sail meets head-on).
pub open spec fn spec_aoa(wind: Vec2d, chord_angle: int) -> int {
    let head = if wind.mag == 0 {
        0int
    } else {
        norm_angle(wind.ang + HALF_TURN)
    };
    norm_angle(head - norm_angle(chord_angle))
}

/// The force magnitude `1/2 * density * |wind|^2 * area * c` in the
/// crate's fixed-point arithmetic (density is the simulation
/// constant 1), truncating toward zero at each scaling step.
pub open spec fn spec_force_mag(ws: int, area: int, c: int) -> int {
    ws * ws / (SCALE as int) * area / (SCALE as int) * c / (COEFF_ONE as int) / 2
}

/// The direction of the lift force: transverse to the flow, on the
/// side given by the sign of the angle of attack.
pub open spec fn spec_lift_ang(wind: Vec2d, chord_angle: int) -> int {
    if spec_aoa(wind, chord_angle) > 0 {
        norm_angle(wind.ang + QUARTER_TURN)
    } else {
        norm_angle(wind.ang - QUARTER_TURN)
    }
}

/// Shared bound chain for the force magnitude: every intermediate
/// value of the formula stays small.
proof fn lemma_force_mag_bounds(ws: int, area: int, c: int)
    requires
        0 <= ws <= MAX_WIND,
        0 <= area <= MAX_AREA,
        0 <= c <= 1600,
    ensures
        0 <= ws * ws <= 10_000_000_000,
        0 <= ws * ws / (SCALE as int) <= 10_000_000,
        0 <= ws * ws / (SCALE as int) * area <= 1_000_000_000_000,
        0 <= ws * ws / (SCALE as int) * area / (SCALE as int) <= 1_000_000_000,
        0 <= ws * ws / (SCALE as int) * area / (SCALE as int) * c <= 1_600_000_000_000,
        0 <= ws * ws / (SCALE as int) * area / (SCALE as int) * c / (COEFF_ONE as int)
            <= 1_600_000_000,
        0 <= spec_force_mag(ws, area, c) <= 800_000_000,
        spec_force_mag(ws, area, c) <= MAX_MAG,
{
    let sc = SCALE as int;
    let co = COEFF_ONE as int;
    let t1 = ws * ws;
    assert(0 <= t1 <= 10_000_000_000) by (nonlinear_arith)
        requires
            0 <= ws <= 100_000,
            t1 == ws * ws,
    ;
    let t2 = t1 / sc;
    lemma_div_pos_is_pos(t1, sc);
    lemma_div_is_ordered(t1, 10_000_000_000, sc);
    assert(10_000_000_000int / sc == 10_000_000);
    let t3 = t2 * area;
    assert(0 <= t3 <= 1_000_000_000_000) by (nonlinear_arith)
        requires
            0 <= t2 <= 10_000_000,
            0 <= area <= 100_000,
            t3 == t2 * area,
    ;
    let t4 = t3 / sc;
    lemma_div_pos_is_pos(t3, sc);
    lemma_div_is_ordered(t3, 1_000_000_000_000, sc);
    assert(1_000_000_000_000int / sc == 1_000_000_000);
    let t5 = t4 * c;
    assert(0 <= t5 <= 1_600_000_000_000) by (nonlinear_arith)
        requires
            0 <= t4 <= 1_000_000_000,
            0 <= c <= 1600,
            t5 == t4 * c,
    ;
    let t6 = t5 / co;
    lemma_div_pos_is_pos(t5, co);
    lemma_div_is_ordered(t5, 1_600_000_000_000, co);
    assert(1_600_000_000_000int / co == 1_600_000_000);
    lemma_div_pos_is_pos(t6, 2);
    lemma_div_is_ordered(t6, 1_600_000_000, 2);
}

/// The lift force of an apparent wind on a sail.
///
/// The chord direction is turned into a unit direction vector, the
/// signed angle of attack is measured between the reversed wind and
/// that chord, and the magnitude follows the standard lift formula
/// with the interpolated coefficient of the unsigned attack angle.
/// The force is perpendicular to the flow: a quarter turn to one side
/// of the wind direction for a positive angle of attack, to the other
/// side otherwise.  Zero wind yields the zero force.
pub fn lift(wind: Vec2d, sail_area: i64, sail_chord_angle: i64) -> (force: Vec2d)
    requires
        wind.wf(),
        wind.mag <= MAX_WIND,
        0 <= sail_area <= MAX_AREA,
    ensures
        force.wf(),
        force.mag == spec_force_mag(
            wind.mag as int,
            sail_area as int,
            spec_lift_coefficient(abs(spec_aoa(wind, sail_chord_angle as int)) as int),
        ),
        force.mag > 0 ==> force.ang == spec_lift_ang(wind, sail_chord_angle as int),
        force.mag == 0 ==> force == Vec2d::zero(),
{
    let chord = Vec2d::from_polar(SCALE, sail_chord_angle);
    let head = wind.neg();
    let aoa = head.angle(&chord);
    let cl = lift_coefficient(if aoa < 0 {
        -aoa
    } else {
        aoa
    });
    let ws = wind.r();
    proof {
        lemma_force_mag_bounds(ws as int, sail_area as int, cl as int);
    }
    let lm = ws * ws / SCALE * sail_area / SCALE * cl / COEFF_ONE / 2;
    let dir = if aoa > 0 {
        norm_angle_i64(wind.ang + QUARTER_TURN)
    } else {
        norm_angle_i64(wind.ang - QUARTER_TURN)
    };
    proof {
        crate::angle::lemma_norm_angle_identity(dir as int);
    }
    Vec2d::from_polar(lm, dir)
}

/// The drag force of an apparent wind on a sail: the same contract
/// shape as `lift`, with the drag table, and a force parallel to the
/// flow (it points in the wind's own direction of travel).
pub fn drag(wind: Vec2d, sail_area: i64, sail_chord_angle: i64) -> (force: Vec2d)
    requires
        wind.wf(),
        wind.mag <= MAX_WIND,
        0 <= sail_area <= MAX_AREA,
    ensures
        force.wf(),
        force.mag == spec_force_mag(
            wind.mag as int,
            sail_area as int,
            spec_drag_coefficient(abs(spec_aoa(wind, sail_chord_angle as int)) as int),
        ),
        force.mag > 0 ==> force.ang == wind.ang,
        force.mag == 0 ==> force == Vec2d::zero(),
{
    let chord = Vec2d::from_polar(SCALE, sail_chord_angle);
    let head = wind.neg();
    let aoa = head.angle(&chord);
    let cd = drag_coefficient(if aoa < 0 {
        -aoa
    } else {
        aoa
    });
    let ws = wind.r();
    proof {
        lemma_force_mag_bounds(ws as int, sail_area as int, cd as int);
        crate::angle::lemma_norm_angle_identity(wind.ang as int);
    }
    let dm = ws * ws / SCALE * sail_area / SCALE * cd / COEFF_ONE / 2;
    Vec2d::from_polar(dm, wind.ang)
}

/// The coefficient model's boundaries: the coefficient is the first
/// table sample at zero attack, vanishes outside the sampled
/// envelope, and on the last sampled segment (90 to 99 degrees)
/// interpolates toward the closing sample `lift_entry(10)`.
pub proof fn lemma_coefficient_boundaries(a: int)
    ensures
        spec_lift_coefficient(0) == lift_entry(0),
        a < 0 ==> spec_lift_coefficient(a) == 0,
        a > COEFF_EDGE ==> spec_lift_coefficient(a) == 0,
        90_000_000 <= a <= COEFF_EDGE ==> spec_lift_coefficient(a) == lift_entry(9) - (lift_entry(
            9,
        ) - lift_entry(10)) * (a - 90_000_000) / (COEFF_STEP as int),
{
    let s = COEFF_STEP as int;
    assert(0int / s == 0 && 0int % s == 0);
    assert((lift_entry(1) - lift_entry(0)) * 0 == 0);
    if 90_000_000 <= a <= COEFF_EDGE {
        lemma_fundamental_div_mod_converse(a, s, 9, a - 90_000_000);
    }
}

/// The sign of the angle of attack picks the side of the lift force:
/// a positive attack angle sends the lift a quarter turn to one side
/// of the wind direction, a non-positive one a quarter turn to the
/// other side.
pub proof fn lemma_lift_direction_sign(wind: Vec2d, chord_angle: int)
    requires
        wind.wf(),
    ensures
        spec_aoa(wind, chord_angle) > 0 ==> spec_lift_ang(wind, chord_angle) == norm_angle(
            wind.ang + QUARTER_TURN,
        ),
        spec_aoa(wind, chord_angle) <= 0 ==> spec_lift_ang(wind, chord_angle) == norm_angle(
            wind.ang - QUARTER_TURN,
        ),
{
}

} // verus!
