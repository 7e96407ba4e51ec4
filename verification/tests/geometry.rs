//! Planar transform behaviour.

use robot_kinematics::geometry::{Point2D, Transform2D};

/// One unit on the fixed-point grid.
const UNIT: i64 = 1_000_000;
/// Half a turn, in microradians.
const PI_U: i64 = 3_141_593;
/// A quarter turn, in microradians.
const HALF_PI_U: i64 = 1_570_796;
/// Tolerance for results that pass through the trigonometric polynomials.
const EPSILON: i64 = 32;

fn approx_eq(a: i64, b: i64) -> bool {
    (a - b).abs() < EPSILON
}

fn point_approx_eq(a: &Point2D, b: &Point2D) -> bool {
    approx_eq(a.x, b.x) && approx_eq(a.y, b.y)
}

#[test]
fn geometry_test_identity_transform() {
    let identity = Transform2D::identity();
    let point = Point2D::new(3 * UNIT, 4 * UNIT);
    let transformed = identity.transform_point(&point);

    assert_eq!(transformed, point);
}

#[test]
fn geometry_test_translation() {
    let trans = Transform2D::translation(2 * UNIT, 3 * UNIT);
    let point = Point2D::new(UNIT, UNIT);
    let transformed = trans.transform_point(&point);

    assert_eq!(transformed, Point2D::new(3 * UNIT, 4 * UNIT));
}

#[test]
fn test_rotation_90_degrees() {
    let rot = Transform2D::rotation(HALF_PI_U);
    let point = Point2D::new(UNIT, 0);
    let transformed = rot.transform_point(&point);

    // Rotating (1, 0) by a quarter turn should give (0, 1).
    assert!(point_approx_eq(&transformed, &Point2D::new(0, UNIT)));
}

#[test]
fn test_rotation_180_degrees() {
    let rot = Transform2D::rotation(PI_U);
    let point = Point2D::new(UNIT, 0);
    let transformed = rot.transform_point(&point);

    // Rotating (1, 0) by a half turn should give (-1, 0), exactly: the
    // cosine and sine of the half turn are exact on the grid.
    assert_eq!(transformed, Point2D::new(-UNIT, 0));
}

#[test]
fn geometry_test_compose_rotation_then_translation() {
    // First rotate a quarter turn, then translate by (2, 0).
    let rot = Transform2D::rotation(HALF_PI_U);
    let trans = Transform2D::translation(2 * UNIT, 0);
    let combined = trans.compose(&rot);

    let point = Point2D::new(UNIT, 0);
    let transformed = combined.transform_point(&point);

    // (1, 0) rotated a quarter turn = (0, 1), then translated = (2, 1).
    assert!(point_approx_eq(&transformed, &Point2D::new(2 * UNIT, UNIT)));
}

#[test]
fn test_compose_translation_then_rotation() {
    // First translate by (1, 0), then rotate a quarter turn.
    let trans = Transform2D::translation(UNIT, 0);
    let rot = Transform2D::rotation(HALF_PI_U);
    let combined = rot.compose(&trans);

    let point = Point2D::new(UNIT, 0);
    let transformed = combined.transform_point(&point);

    // (1, 0) translated = (2, 0), then rotated a quarter turn = (0, 2).
    assert!(point_approx_eq(&transformed, &Point2D::new(0, 2 * UNIT)));
}

#[test]
fn geometry_test_identity_composition() {
    let identity = Transform2D::identity();
    let trans = Transform2D::translation(3 * UNIT, 4 * UNIT);

    let composed1 = identity.compose(&trans);
    let composed2 = trans.compose(&identity);

    let point = Point2D::new(UNIT, UNIT);
    let result1 = composed1.transform_point(&point);
    let result2 = composed2.transform_point(&point);
    let expected = trans.transform_point(&point);

    // Composing with the identity is exact in this arithmetic.
    assert_eq!(result1, expected);
    assert_eq!(result2, expected);
}
