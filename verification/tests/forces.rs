//! Aerodynamic coefficient and force tests.
//!
//! Angles are micro-degrees, coefficients thousandths, lengths
//! thousandths of a unit.  All the polar quantities below are exact
//! in the fixed-point model, so the expected values are exact.

use sailboat_physics::aerodynamics::{self, drag, lift};
use sailboat_physics::geometry::Vec2d;

#[test]
fn lift_coefficient() {
    assert_eq!(aerodynamics::lift_coefficient(0), 0);
    // 180 degrees of attack is outside the sampled envelope.
    assert_eq!(aerodynamics::lift_coefficient(180_000_000), 0);
    // 45 degrees: halfway between the 1400 and 1300 samples.
    assert_eq!(aerodynamics::lift_coefficient(45_000_000), 1350);
}

#[test]
fn lift_1() {
    // True wind of speed 1 pointing a half turn away from North and
    // a sail chord at 45 degrees: the lift is transverse to the
    // flow, a quarter turn East.
    let l = lift(Vec2d::from_polar(1000, -180_000_000), 1000, 45_000_000);
    assert_eq!(l.phi(), 90_000_000);
}

#[test]
fn lift_2() {
    let l = lift(Vec2d::from_polar(1000, -135_000_000), 1000, 0);
    assert_eq!(l.phi(), -45_000_000);
}

#[test]
fn lift_magnitude_worked_example() {
    // 1/2 * density(1) * 1^2 * 1 * 1.35 == 0.675.
    let l = lift(Vec2d::from_polar(1000, -180_000_000), 1000, 45_000_000);
    assert_eq!(l.r(), 675);
}

#[test]
fn coefficient_envelope_boundaries() {
    // Below zero and above 99 degrees the coefficient vanishes; at
    // 99 degrees the last segment interpolates toward the closing
    // sample at 100 degrees.
    assert_eq!(aerodynamics::lift_coefficient(-1), 0);
    assert_eq!(aerodynamics::lift_coefficient(99_000_001), 0);
    assert_eq!(aerodynamics::lift_coefficient(99_000_000), 165);
    assert_eq!(aerodynamics::lift_coefficient(90_000_000), 300);
    assert_eq!(aerodynamics::lift_coefficient(10_000_000), 100);
}

#[test]
fn drag_coefficient_samples() {
    assert_eq!(aerodynamics::drag_coefficient(0), 10);
    assert_eq!(aerodynamics::drag_coefficient(45_000_000), 350);
    assert_eq!(aerodynamics::drag_coefficient(95_000_000), 1400);
    assert_eq!(aerodynamics::drag_coefficient(-1), 0);
    assert_eq!(aerodynamics::drag_coefficient(99_000_001), 0);
}

#[test]
fn lift_direction_follows_attack_sign() {
    // Positive angle of attack: lift a quarter turn to the East side
    // of the wind direction; negative: a quarter turn the other way.
    let wind = Vec2d::from_polar(1000, -135_000_000);
    let positive = lift(wind, 1000, 0);
    assert_eq!(positive.phi(), -45_000_000);
    let wind2 = Vec2d::from_polar(1000, -180_000_000);
    let negative = lift(wind2, 1000, 45_000_000);
    assert_eq!(negative.phi(), 90_000_000);
}

#[test]
fn drag_is_parallel_to_wind() {
    let wind = Vec2d::from_polar(1000, -135_000_000);
    let d = drag(wind, 1000, 0);
    assert_eq!(d.phi(), wind.phi());
    // 1/2 * 1^2 * 1 * 0.35 == 0.175.
    assert_eq!(d.r(), 175);
}

#[test]
fn zero_wind_gives_zero_forces() {
    let calm = Vec2d::from_polar(0, 0);
    assert_eq!(lift(calm, 1000, 45_000_000), Vec2d::from_polar(0, 0));
    assert_eq!(drag(calm, 1000, 45_000_000), Vec2d::from_polar(0, 0));
}
