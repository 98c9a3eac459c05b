//! Vector algebra tests.
//!
//! Lengths are in thousandths of a unit and angles in micro-degrees,
//! so 1.0 is 1000 and a quarter turn is 90_000_000.  The polar
//! operations are exact in this representation and are checked with
//! exact equality; operations that go through the fixed-point
//! trigonometry (cartesian construction, addition, dot product) are
//! checked within the tolerance of the per-degree tables.

use sailboat_physics::angle::norm_angle_i64;
use sailboat_physics::geometry::Vec2d;
use sailboat_physics::numeric::isqrt;

/// Magnitude tolerance for results of a cartesian round trip.
const MAG_TOL: i64 = 5;

/// Angle tolerance (micro-degrees) for results of a cartesian round
/// trip.
const ANG_TOL: i64 = 60_000;

fn assert_vec_approx(got: Vec2d, want: Vec2d) {
    let dm = (got.mag - want.mag).abs();
    let da = (got.ang - want.ang).abs();
    assert!(
        dm <= MAG_TOL && da <= ANG_TOL,
        "got {:?}, want {:?} (dm={}, da={})",
        got,
        want,
        dm,
        da
    );
}

#[test]
fn geometry_from_polar() {
    assert_eq!(Vec2d::from_polar(1000, 0), Vec2d::new(1000, 0));
    assert_eq!(Vec2d::from_polar(1000, 90_000_000), Vec2d::new(0, 1000));
    assert_eq!(Vec2d::from_polar(1000, 180_000_000), Vec2d::new(-1000, 0));
    assert_eq!(Vec2d::from_polar(1000, 270_000_000), Vec2d::new(0, -1000));
}

#[test]
fn geometry_inverse() {
    let v = Vec2d::new(5000, 4000);
    assert_eq!(v.neg(), Vec2d::new(-5000, -4000));
}

#[test]
fn geometry_add() {
    let v = Vec2d::new(5000, 4000);
    let u = Vec2d::new(2000, -8000);
    assert_vec_approx(v.add(&u), Vec2d::new(7000, -4000));
}

#[test]
fn geometry_dot() {
    let v = Vec2d::new(5000, 4000);
    let u = Vec2d::new(2000, -8000);
    // -22.0 in thousandths of a squared unit, within the tolerance
    // of the fixed-point cosine.
    let d = v.dot(&u);
    assert!((d + 22_000).abs() <= 40, "dot = {}", d);
}

#[test]
fn test_r() {
    let v = Vec2d::new(3000, 4000);
    assert_eq!(v.r(), 5000);
}

#[test]
fn geometry_test_positive_angle() {
    let v = Vec2d::new(3000, 3000);
    let u = Vec2d::new(1000, 0);
    assert_eq!(v.angle(&u), 45_000_000);
}

#[test]
fn geometry_test_negative_angle() {
    let v = Vec2d::from_polar(1000, 90_000_000);
    let u = Vec2d::from_polar(1000, 135_000_000);
    assert_eq!(v.angle(&u), -45_000_000);
}

#[test]
fn geometry_test_angle_overflow() {
    let v = Vec2d::from_polar(1000, 157_500_000);
    let u = Vec2d::from_polar(1000, -157_500_000);
    assert_eq!(v.angle(&u), -45_000_000);
    assert_eq!(u.angle(&v), 45_000_000);
}

#[test]
fn test_phi() {
    let v = Vec2d::from_polar(1000, 157_500_000);
    let u = Vec2d::from_polar(1000, -157_500_000);
    assert_eq!(v.phi(), 157_500_000);
    assert_eq!(u.phi(), -157_500_000);
}

#[test]
fn test_rotate() {
    let v = Vec2d::from_polar(1000, 90_000_000);
    assert_eq!(v.rotate(45_000_000), Vec2d::from_polar(1000, 135_000_000));
}

#[test]
fn test_rotate_overflow_right() {
    let v = Vec2d::from_polar(1000, 135_000_000);
    assert_eq!(v.rotate(90_000_000), Vec2d::from_polar(1000, -135_000_000));
}

#[test]
fn test_rotate_overflow_left() {
    let v = Vec2d::from_polar(1000, -135_000_000);
    assert_eq!(v.rotate(-90_000_000), Vec2d::from_polar(1000, 135_000_000));
}

#[test]
fn test_increase() {
    let v = Vec2d::from_polar(1000, 0);
    assert_eq!(v.increase(3000), Vec2d::from_polar(4000, 0));
    assert_eq!(v.increase(-3000), Vec2d::from_polar(0, 0));
}

#[test]
fn goemetry_from_polar() {
    assert_eq!(Vec2d::from_polar(1000, 0), Vec2d::new(1000, 0));
    assert_eq!(Vec2d::from_polar(1000, 90_000_000), Vec2d::new(0, 1000));
    assert_eq!(Vec2d::from_polar(1000, 180_000_000), Vec2d::new(-1000, 0));
    assert_eq!(Vec2d::from_polar(1000, 270_000_000), Vec2d::new(0, -1000));
}

#[test]
fn goemetry_inverse() {
    let v = Vec2d::new(5000, 4000);
    assert_eq!(v.neg(), Vec2d::new(-5000, -4000));
}

#[test]
fn goemetry_add() {
    let v = Vec2d::new(5000, 4000);
    let u = Vec2d::new(2000, -8000);
    assert_vec_approx(v.add(&u), Vec2d::new(7000, -4000));
}

#[test]
fn goemetry_dot() {
    let v = Vec2d::new(5000, 4000);
    let u = Vec2d::new(2000, -8000);
    let d = v.dot(&u);
    assert!((d + 22_000).abs() <= 40, "dot = {}", d);
}

#[test]
fn goemetry_norm() {
    let v = Vec2d::new(3000, 4000);
    assert_eq!(v.norm(), 5000);
}

#[test]
fn goemetry_test_positive_angle() {
    let v = Vec2d::new(3000, 3000);
    let u = Vec2d::new(1000, 0);
    assert_eq!(v.angle(&u), 45_000_000);
}

#[test]
fn goemetry_test_negative_angle() {
    let v = Vec2d::from_polar(1000, 90_000_000);
    let u = Vec2d::from_polar(1000, 135_000_000);
    assert_eq!(v.angle(&u), -45_000_000);
}

#[test]
fn goemetry_test_angle_overflow() {
    let v = Vec2d::from_polar(1000, 157_500_000);
    let u = Vec2d::from_polar(1000, -157_500_000);
    assert_eq!(v.angle(&u), -45_000_000);
    assert_eq!(u.angle(&v), 45_000_000);
}

#[test]
fn test_dir() {
    let v = Vec2d::from_polar(1000, 157_500_000);
    let u = Vec2d::from_polar(1000, -157_500_000);
    assert_eq!(v.dir(), 157_500_000);
    assert_eq!(u.dir(), -157_500_000);
}

#[test]
fn vector_inverse() {
    let v = Vec2d::new(5000, 4000);
    assert_eq!(v.neg(), Vec2d::new(-5000, -4000));
}

#[test]
fn vector_add() {
    let v = Vec2d::new(5000, 4000);
    let u = Vec2d::new(2000, -8000);
    assert_vec_approx(v.add(&u), Vec2d::new(7000, -4000));
}

#[test]
fn vector_dot() {
    let v = Vec2d::new(5000, 4000);
    let u = Vec2d::new(2000, -8000);
    let d = v.dot(&u);
    assert!((d + 22_000).abs() <= 40, "dot = {}", d);
}

#[test]
fn vector_norm() {
    let v = Vec2d::new(3000, 4000);
    assert_eq!(v.norm(), 5000);
}

#[test]
fn polar_round_trip_samples() {
    // Magnitude round-trips exactly for non-negative radii, and the
    // angle comes back normalized, whole turns removed.
    assert_eq!(Vec2d::from_polar(1234, 45_000_000).r(), 1234);
    assert_eq!(Vec2d::from_polar(1234, 45_000_000).phi(), 45_000_000);
    assert_eq!(Vec2d::from_polar(1000, 450_000_000).phi(), 90_000_000);
    assert_eq!(Vec2d::from_polar(1000, -450_000_000).phi(), -90_000_000);
    assert_eq!(Vec2d::from_polar(0, 123_000_000), Vec2d::from_polar(0, 0));
}

#[test]
fn polar_negative_radius_clamps() {
    // The clamping policy: a negative radius is the zero vector, not
    // a reversed direction.
    assert_eq!(Vec2d::from_polar(-5000, 90_000_000), Vec2d::from_polar(0, 0));
    assert_eq!(Vec2d::from_polar(-1, 0).r(), 0);
}

#[test]
fn angle_stays_in_canonical_range() {
    let angles = [
        0,
        45_000_000,
        -30_000_000,
        157_500_000,
        -157_500_000,
        180_000_000,
        -179_999_999,
    ];
    for a in angles {
        for b in angles {
            let v = Vec2d::from_polar(1000, a);
            let u = Vec2d::from_polar(1000, b);
            let d = v.angle(&u);
            assert!(-180_000_000 < d && d <= 180_000_000, "angle {} out of range", d);
        }
    }
}

#[test]
fn angle_antisymmetry() {
    let v = Vec2d::from_polar(1000, 45_000_000);
    let u = Vec2d::from_polar(1000, -30_000_000);
    assert_eq!(v.angle(&u), 75_000_000);
    assert_eq!(u.angle(&v), -75_000_000);
    // At the half-turn boundary both orders give exactly +180
    // degrees: the canonical representative of the flip.
    let n = Vec2d::from_polar(1000, 0);
    let s = Vec2d::from_polar(1000, 180_000_000);
    assert_eq!(n.angle(&s), 180_000_000);
    assert_eq!(s.angle(&n), 180_000_000);
}

#[test]
fn components_of_polar() {
    let v = Vec2d::from_polar(1000, 60_000_000);
    assert_eq!(v.components(), (500, 866));
    let w = Vec2d::from_polar(2000, -90_000_000);
    assert_eq!(w.components(), (0, -2000));
}

#[test]
fn multiply_scales_and_reverses() {
    let v = Vec2d::new(5000, 0);
    assert_eq!(v.multiply(2000), Vec2d::from_polar(10_000, 0));
    assert_eq!(v.multiply(-1000), Vec2d::from_polar(5000, 180_000_000));
    assert_eq!(v.multiply(0), Vec2d::from_polar(0, 0));
}

#[test]
fn add_with_zero_is_exact() {
    let v = Vec2d::from_polar(1234, 37_000_000);
    let z = Vec2d::from_polar(0, 0);
    assert_eq!(v.add(&z), v);
    assert_eq!(z.add(&v), v);
}

#[test]
fn dot_of_orthogonal_vectors() {
    let v = Vec2d::new(3000, 3000);
    let u = Vec2d::new(-4000, 4000);
    let d = v.dot(&u);
    assert!(d.abs() <= 40, "dot = {}", d);
}

#[test]
fn isqrt_samples() {
    assert_eq!(isqrt(0), 0);
    assert_eq!(isqrt(1), 1);
    assert_eq!(isqrt(3), 1);
    assert_eq!(isqrt(41_000_000), 6403);
    assert_eq!(isqrt(u64::MAX), 4_294_967_295);
}

#[test]
fn norm_angle_samples() {
    assert_eq!(norm_angle_i64(0), 0);
    assert_eq!(norm_angle_i64(360_000_000), 0);
    assert_eq!(norm_angle_i64(540_000_000), 180_000_000);
    assert_eq!(norm_angle_i64(-540_000_000), 180_000_000);
    assert_eq!(norm_angle_i64(-180_000_000), 180_000_000);
    assert_eq!(norm_angle_i64(i64::MIN), -54_775_808);
    assert_eq!(norm_angle_i64(i64::MAX), 54_775_807);
}
