use raycaster::fixed::{ONE, QUARTER_TURN};
use raycaster::vectors::{Vector2, Vector2f, Vector2i, Vector3f};

#[test]
fn clamp_holds_each_coordinate_in_its_interval() {
    let v: Vector2i = Vector2::new(-5, 120);
    let c = v.clamp(0, 100, 0, 50);
    assert_eq!(c.x, 0);
    assert_eq!(c.y, 50);
    let inside: Vector2i = Vector2::new(7, 9);
    assert_eq!(inside.clamp(0, 100, 0, 50), inside);
    let edge: Vector2i = Vector2::new(100, 0);
    assert_eq!(edge.clamp(0, 100, 0, 50), edge);
}

#[test]
fn clamp_to_a_point() {
    let v: Vector2<i64> = Vector2::new(3, -3);
    let c = v.clamp(1, 1, 2, 2);
    assert_eq!(c, Vector2::new(1, 2));
}

#[test]
fn a_quarter_turn_swaps_the_coordinates() {
    let mut v: Vector2f = Vector2::new(ONE, 0);
    v.rotate(QUARTER_TURN);
    assert_eq!(v, Vector2::new(0, ONE));
    v.rotate(QUARTER_TURN);
    assert_eq!(v, Vector2::new(-ONE, 0));
    v.rotate(-2 * QUARTER_TURN);
    assert_eq!(v, Vector2::new(ONE, 0));
    let mut plane: Vector2f = Vector2::new(0, 660_000);
    plane.rotate(QUARTER_TURN);
    assert_eq!(plane, Vector2::new(-660_000, 0));
}

#[test]
fn a_turn_keeps_the_length() {
    let mut v: Vector2f = Vector2::new(ONE, 0);
    v.rotate(523_599);
    let x = v.x as f64 / 1e6;
    let y = v.y as f64 / 1e6;
    assert!((x - 0.866_025).abs() < 1e-4);
    assert!((y - 0.5).abs() < 1e-4);
    assert!((x * x + y * y - 1.0).abs() < 1e-4);
}

#[test]
fn zero_vectors() {
    assert_eq!(Vector2f::zero(), Vector2::new(0, 0));
    assert_eq!(Vector3f::zero(), Vector3f::new(0, 0, 0));
}
