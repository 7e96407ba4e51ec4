//! Three-dimensional transform behaviour.

use robot_kinematics::geometry3d::{Point3D, Transform3D};

/// One unit on the fixed-point grid.
const UNIT: i64 = 1_000_000;
/// Half a turn, in microradians.
const PI_U: i64 = 3_141_593;
/// A quarter turn, in microradians.
const HALF_PI_U: i64 = 1_570_796;
/// Tolerance for results that pass through the trigonometric polynomials.
const EPSILON: i64 = 32;

fn approx_eq(a: i64, b: i64) -> bool {
    (a - b).abs() < EPSILON
}

fn point_approx_eq(a: &Point3D, b: &Point3D) -> bool {
    approx_eq(a.x, b.x) && approx_eq(a.y, b.y) && approx_eq(a.z, b.z)
}

#[test]
fn geometry3d_test_identity_transform() {
    let identity = Transform3D::identity();
    let point = Point3D::new(3 * UNIT, 4 * UNIT, 5 * UNIT);
    let transformed = identity.transform_point(&point);

    assert_eq!(transformed, point);
}

#[test]
fn geometry3d_test_translation() {
    let trans = Transform3D::translation(2 * UNIT, 3 * UNIT, 4 * UNIT);
    let point = Point3D::new(UNIT, UNIT, UNIT);
    let transformed = trans.transform_point(&point);

    assert_eq!(transformed, Point3D::new(3 * UNIT, 4 * UNIT, 5 * UNIT));
}

#[test]
fn test_rotation_z_90_degrees() {
    let rot = Transform3D::rotation_z(HALF_PI_U);
    let point = Point3D::new(UNIT, 0, 0);
    let transformed = rot.transform_point(&point);

    // Rotating (1, 0, 0) a quarter turn around Z should give (0, 1, 0).
    assert!(point_approx_eq(&transformed, &Point3D::new(0, UNIT, 0)));
}

#[test]
fn test_rotation_z_180_degrees() {
    let rot = Transform3D::rotation_z(PI_U);
    let point = Point3D::new(UNIT, 0, 0);
    let transformed = rot.transform_point(&point);

    // A half turn is exact on the grid.
    assert_eq!(transformed, Point3D::new(-UNIT, 0, 0));
}

#[test]
fn test_rotation_x_90_degrees() {
    let rot = Transform3D::rotation_x(HALF_PI_U);
    let point = Point3D::new(0, UNIT, 0);
    let transformed = rot.transform_point(&point);

    // Rotating (0, 1, 0) a quarter turn around X should give (0, 0, 1).
    assert!(point_approx_eq(&transformed, &Point3D::new(0, 0, UNIT)));
}

#[test]
fn test_rotation_y_90_degrees() {
    let rot = Transform3D::rotation_y(HALF_PI_U);
    let point = Point3D::new(UNIT, 0, 0);
    let transformed = rot.transform_point(&point);

    // Rotating (1, 0, 0) a quarter turn around Y should give (0, 0, -1).
    assert!(point_approx_eq(&transformed, &Point3D::new(0, 0, -UNIT)));
}

#[test]
fn geometry3d_test_compose_rotation_then_translation() {
    // First rotate a quarter turn around Z, then translate by (2, 0, 0).
    let rot = Transform3D::rotation_z(HALF_PI_U);
    let trans = Transform3D::translation(2 * UNIT, 0, 0);
    let combined = trans.compose(&rot);

    let point = Point3D::new(UNIT, 0, 0);
    let transformed = combined.transform_point(&point);

    // (1, 0, 0) rotated = (0, 1, 0), then translated = (2, 1, 0).
    assert!(point_approx_eq(&transformed, &Point3D::new(2 * UNIT, UNIT, 0)));
}

#[test]
fn geometry3d_test_identity_composition() {
    let identity = Transform3D::identity();
    let trans = Transform3D::translation(3 * UNIT, 4 * UNIT, 5 * UNIT);

    let composed1 = identity.compose(&trans);
    let composed2 = trans.compose(&identity);

    let point = Point3D::new(UNIT, UNIT, UNIT);
    let result1 = composed1.transform_point(&point);
    let result2 = composed2.transform_point(&point);
    let expected = trans.transform_point(&point);

    // Composing with the identity is exact in this arithmetic.
    assert_eq!(result1, expected);
    assert_eq!(result2, expected);
}
