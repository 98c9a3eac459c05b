//! Wind wrapper and boat-state tests, with end-to-end scenarios.

use sailboat_physics::geometry::Vec2d;
use sailboat_physics::{Sailboat, Wind};

#[test]
fn wind_dir() {
    // Directions come back in thousandths of a degree.
    assert_eq!(Wind::new(Vec2d::new(1000, 0)).direction(), 0);
    assert_eq!(Wind::new(Vec2d::new(3000, 3000)).direction(), 45_000);
    assert_eq!(Wind::new(Vec2d::new(-3000, -3000)).direction(), -135_000);
}

#[test]
fn wind_speed() {
    assert_eq!(Wind::new(Vec2d::new(3000, 4000)).speed(), 5000);
}

#[test]
fn stationary_boat_feels_true_wind() {
    // True wind of speed 1 blowing toward North, boat at rest: the
    // apparent wind is exactly the true wind.
    let wind = Vec2d::from_polar(1000, 180_000_000);
    let boat = Sailboat::new(Vec2d::from_polar(0, 0), 0);
    assert_eq!(boat.apparent_wind(&wind), wind);
}

#[test]
fn moving_boat_in_still_air_feels_headwind() {
    // A boat moving North through still air feels a wind of its own
    // speed coming from dead ahead.
    let boat = Sailboat::new(Vec2d::from_polar(3000, 0), 0);
    let calm = Vec2d::from_polar(0, 0);
    assert_eq!(boat.apparent_wind(&calm), Vec2d::from_polar(3000, 180_000_000));
}

#[test]
fn turn_then_push_to_zero() {
    // Velocity (5, 4), turned a quarter of a half turn, then pushed
    // back by its own magnitude: the speed clamps at exactly zero.
    let boat = Sailboat::new(Vec2d::new(5000, 4000), 0);
    let speed = boat.velocity.r();
    let turned = boat.turn(45_000_000);
    assert_eq!(turned.velocity.r(), speed);
    let stopped = turned.push(-speed);
    assert_eq!(stopped.velocity.r(), 0);
    assert_eq!(stopped.velocity, Vec2d::from_polar(0, 0));
}

#[test]
fn push_changes_only_speed() {
    let boat = Sailboat::new(Vec2d::from_polar(3000, 45_000_000), 7);
    let faster = boat.push(500);
    assert_eq!(faster.velocity, Vec2d::from_polar(3500, 45_000_000));
    assert_eq!(faster.sail_angle, 7);
}

#[test]
fn turn_wraps_heading() {
    let boat = Sailboat::new(Vec2d::from_polar(1000, 135_000_000), 0);
    let turned = boat.turn(90_000_000);
    assert_eq!(turned.velocity.phi(), -135_000_000);
    assert_eq!(turned.velocity.r(), 1000);
}

#[test]
fn rotate_sail_keeps_velocity() {
    let boat = Sailboat::new(Vec2d::from_polar(1000, 0), 10_000_000);
    let trimmed = boat.rotate_sail(-25_000_000);
    assert_eq!(trimmed.sail_angle, -15_000_000);
    assert_eq!(trimmed.velocity, boat.velocity);
}

#[test]
fn apparent_wind_of_moving_boat() {
    // Boat due North at 3, wind toward North at 1: the apparent wind
    // is the difference, speed 2 from dead ahead.
    let boat = Sailboat::new(Vec2d::from_polar(3000, 0), 0);
    let wind = Vec2d::from_polar(1000, 0);
    let aw = boat.apparent_wind(&wind);
    assert!((aw.r() - 2000).abs() <= 5, "apparent speed {}", aw.r());
    assert_eq!(aw.phi(), 180_000_000);
}
