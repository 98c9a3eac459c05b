//! Planar sailboat physics: 2D vectors in a polar fixed-point
//! representation, angle normalization with wraparound, an empirical
//! piecewise-linear aerodynamic coefficient model, and pure
//! boat-state transitions.
//!
//! All angles are integers in micro-degrees (see `angle`), with 0
//! pointing North and positive angles rotating toward East.  All
//! lengths and speeds are integers in thousandths of a unit (see
//! `geometry::SCALE`).  The core never performs I/O and owns no
//! mutable state: every operation is a pure function from values to
//! values.

pub mod aerodynamics;
pub mod angle;
pub mod geometry;
pub mod numeric;
pub mod trig;

use crate::angle::{norm_angle, HALF_TURN};
use crate::geometry::{Vec2d, MAX_COORD, MAX_MAG, MAX_SWING};
use crate::numeric::{sdiv, sdiv_fp};
use vstd::prelude::*;

verus! {

/// Wind: a semantic wrapper around a velocity vector.  The x (North)
/// coordinate convention of `Vec2d` applies; all attributes are
/// recomputed from the vector on every access.
#[derive(Clone, Copy, Debug)]
pub struct Wind {
    pub velocity: Vec2d,
}

impl Wind {
    /// Wrap a velocity vector as a wind.
    pub fn new(velocity: Vec2d) -> (w: Wind)
        ensures
            w.velocity == velocity,
    {
        Wind { velocity }
    }

    /// Wind direction in thousandths of a degree: 0 is North, 90_000
    /// is East (the vector's micro-degree direction scaled down by
    /// 1000, truncating toward zero).
    pub fn direction(&self) -> (d: i64)
        requires
            self.velocity.wf(),
        ensures
            d == sdiv(self.velocity.ang as int, 1000),
    {
        sdiv_fp(self.velocity.ang, 1000)
    }

    /// Wind speed: the velocity vector's magnitude.
    pub fn speed(&self) -> (s: i64)
        ensures
            s == self.velocity.mag,
    {
        self.velocity.r()
    }
}

/// A sailboat's state: its velocity (heading is the vector's
/// direction, speed its magnitude) and the sail's angle relative to
/// that heading, in micro-degrees, unbounded by design.  Every
/// maneuver is a pure function from the current state to a new one.
#[derive(Clone, Copy, Debug)]
pub struct Sailboat {
    pub velocity: Vec2d,
    pub sail_angle: i64,
}

impl Sailboat {
    /// Well-formedness: the velocity vector is well-formed; the sail
    /// angle carries no invariant.
    pub open spec fn wf(self) -> bool {
        self.velocity.wf()
    }

    /// Assemble a boat state.
    pub fn new(velocity: Vec2d, sail_angle: i64) -> (b: Sailboat)
        ensures
            b.velocity == velocity,
            b.sail_angle == sail_angle,
    {
        Sailboat { velocity, sail_angle }
    }

    /// The apparent wind felt aboard: the true wind plus the boat's
    /// own motion reversed.  A stationary boat feels exactly the true
    /// wind; a boat moving through still air feels a pure headwind.
    pub fn apparent_wind(&self, wind: &Vec2d) -> (aw: Vec2d)
        requires
            self.wf(),
            wind.wf(),
            self.velocity.mag + wind.mag <= MAX_COORD,
        ensures
            aw.wf(),
            self.velocity.mag == 0 ==> aw == *wind,
            self.velocity.mag != 0 && wind.mag == 0 ==> aw.mag == self.velocity.mag && aw.ang
                == norm_angle(self.velocity.ang + HALF_TURN),
            self.velocity.mag != 0 && wind.mag != 0 ==> ({
                let h = norm_angle(self.velocity.ang + HALF_TURN);
                let x = crate::geometry::polar_x(self.velocity.mag as int, h) + wind.spec_x();
                let y = crate::geometry::polar_y(self.velocity.mag as int, h) + wind.spec_y();
                &&& aw.mag * aw.mag <= x * x + y * y < (aw.mag + 1) * (aw.mag + 1)
                &&& aw.ang == crate::trig::spec_atan2(y, x)
            }),
    {
        self.velocity.neg().add(wind)
    }

    /// Turn the boat: rotate its velocity, keeping speed and sail
    /// angle.
    pub fn turn(&self, delta: i64) -> (b: Sailboat)
        requires
            self.wf(),
            -MAX_SWING <= delta <= MAX_SWING,
        ensures
            b.wf(),
            b.sail_angle == self.sail_angle,
            b.velocity.mag == self.velocity.mag,
            self.velocity.mag == 0 ==> b.velocity == self.velocity,
            self.velocity.mag > 0 ==> b.velocity.ang == norm_angle(self.velocity.ang + delta),
    {
        Sailboat { velocity: self.velocity.rotate(delta), sail_angle: self.sail_angle }
    }

    /// Push the boat: change its speed by `amount`, clamped at zero,
    /// keeping heading and sail angle.
    pub fn push(&self, amount: i64) -> (b: Sailboat)
        requires
            self.wf(),
            -MAX_MAG <= amount <= MAX_MAG - self.velocity.mag,
        ensures
            b.wf(),
            b.sail_angle == self.sail_angle,
            self.velocity.mag + amount <= 0 ==> b.velocity == Vec2d::zero(),
            self.velocity.mag + amount > 0 ==> b.velocity.mag == self.velocity.mag + amount
                && b.velocity.ang == self.velocity.ang,
    {
        Sailboat { velocity: self.velocity.increase(amount), sail_angle: self.sail_angle }
    }

    /// Trim the sail: change the sail angle by `delta`, keeping the
    /// velocity.  The sail angle is not wrapped; callers may
    /// normalize it if they want a canonical value.
    pub fn rotate_sail(&self, delta: i64) -> (b: Sailboat)
        requires
            i64::MIN <= self.sail_angle + delta <= i64::MAX,
        ensures
            b.velocity == self.velocity,
            b.sail_angle == self.sail_angle + delta,
    {
        Sailboat { velocity: self.velocity, sail_angle: self.sail_angle + delta }
    }
}

} // verus!
