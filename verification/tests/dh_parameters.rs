//! DH parameter behaviour.

use robot_kinematics::dh_parameters::{DHParameter, JointType};
use robot_kinematics::geometry3d::Point3D;

/// One unit on the fixed-point grid.
const UNIT: i64 = 1_000_000;
/// Half a turn, in microradians.
const PI_U: i64 = 3_141_593;
/// A quarter turn, in microradians.
const HALF_PI_U: i64 = 1_570_796;
/// Tolerance for results that pass through the trigonometric polynomials.
const EPSILON: i64 = 32;

fn approx_eq(a: i64, b: i64) -> bool {
    (a - b).abs() < EPSILON
}

fn point_approx_eq(a: &Point3D, b: &Point3D) -> bool {
    approx_eq(a.x, b.x) && approx_eq(a.y, b.y) && approx_eq(a.z, b.z)
}

#[test]
fn test_planar_dh_constructor() {
    let dh = DHParameter::planar(2 * UNIT);
    assert_eq!(dh.a, 2 * UNIT);
    assert_eq!(dh.alpha, 0);
    assert_eq!(dh.d, 0);
    assert_eq!(dh.theta, 0);
    assert_eq!(dh.joint_type, JointType::Revolute);
}

#[test]
fn test_revolute_joint_value_update() {
    let dh = DHParameter::revolute(UNIT, 0, 0, 0);
    let updated = dh.with_joint_value(HALF_PI_U);

    assert_eq!(updated.theta, HALF_PI_U);
    assert_eq!(updated.d, 0); // d shouldn't change for revolute
}

#[test]
fn test_prismatic_joint_value_update() {
    let dh = DHParameter::prismatic(UNIT, 0, 500_000, 0);
    let updated = dh.with_joint_value(300_000);

    assert_eq!(updated.d, 800_000); // 0.5 offset + 0.3 value
    assert_eq!(updated.theta, 0); // theta shouldn't change for prismatic
}

#[test]
fn test_dh_identity_transform() {
    // DH parameters that should give the identity transform, exactly.
    let dh = DHParameter::revolute(0, 0, 0, 0);
    let transform = dh.to_transform();

    let point = Point3D::new(UNIT, 2 * UNIT, 3 * UNIT);
    let result = transform.transform_point(&point);

    assert_eq!(result, point);
}

#[test]
fn test_dh_pure_translation_x() {
    // Only 'a' set (translation along X): exact.
    let dh = DHParameter::revolute(2 * UNIT, 0, 0, 0);
    let transform = dh.to_transform();

    let origin = Point3D::origin();
    let result = transform.transform_point(&origin);

    assert_eq!(result, Point3D::new(2 * UNIT, 0, 0));
}

#[test]
fn test_dh_pure_rotation_z() {
    // Only theta set (rotation around Z).
    let dh = DHParameter::revolute(0, 0, 0, HALF_PI_U);
    let transform = dh.to_transform();

    let point = Point3D::new(UNIT, 0, 0);
    let result = transform.transform_point(&point);

    // Rotating (1,0,0) a quarter turn around Z gives (0,1,0).
    assert!(point_approx_eq(&result, &Point3D::new(0, UNIT, 0)));
}

#[test]
fn test_dh_planar_robot_link() {
    // Planar robot link: length 2.0, rotated a quarter turn.
    let dh = DHParameter::planar(2 * UNIT).with_joint_value(HALF_PI_U);
    let transform = dh.to_transform();

    let origin = Point3D::origin();
    let result = transform.transform_point(&origin);

    // Should be at (0, 2.0, 0) after the rotation and the translation.
    assert!(point_approx_eq(&result, &Point3D::new(0, 2 * UNIT, 0)));
}

#[test]
fn test_dh_with_twist() {
    // Link with twist (alpha a quarter turn).
    let dh = DHParameter::revolute(UNIT, HALF_PI_U, 0, 0);
    let transform = dh.to_transform();

    let point = Point3D::new(0, UNIT, 0);
    let result = transform.transform_point(&point);

    // Point (0,1,0) -> Rot(X, quarter turn) -> (0,0,1) -> Trans(X,1) -> (1,0,1).
    assert!(point_approx_eq(&result, &Point3D::new(UNIT, 0, UNIT)));
}

#[test]
fn test_dh_full_parameters() {
    // All DH parameters set: an eighth of a turn of twist, a sixth of a
    // half turn of angle.
    let dh = DHParameter {
        a: UNIT,
        alpha: PI_U / 4,
        d: 500_000,
        theta: PI_U / 6,
        joint_type: JointType::Revolute,
        joint_offset: 0,
    };

    let transform = dh.to_transform();
    let result = transform.transform_point(&Point3D::origin());

    // The origin lands at (a cos(theta), a sin(theta), d): near
    // (0.866, 0.5, 0.5).  Coarse bounds stand in for the original's
    // finiteness check.
    assert!(result.x.abs() <= 2 * UNIT);
    assert!(result.y.abs() <= 2 * UNIT);
    assert!(result.z.abs() <= 2 * UNIT);
}
