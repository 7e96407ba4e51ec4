//! Concrete checks of the library's stated laws and edge cases.

use robot_kinematics::dh_parameters::{DHParameter, JointType};
use robot_kinematics::geometry3d::{Point3D, Transform3D};
use robot_kinematics::kinematics::forward_kinematics;
use robot_kinematics::robot::{KinematicsError, RobotArm};
use robot_kinematics::trig::{cos_scaled, sin_scaled};

/// One unit on the fixed-point grid.
const UNIT: i64 = 1_000_000;
/// Half a turn, in microradians.
const PI_U: i64 = 3_141_593;
/// A quarter turn, in microradians.
const HALF_PI_U: i64 = 1_570_796;
/// Tolerance for results that pass through the trigonometric polynomials.
const EPSILON: i64 = 32;

fn approx_eq(a: i64, b: i64) -> bool {
    (a - b).abs() < EPSILON
}

#[test]
fn prop_compose_identity_is_exact() {
    // T composed with the identity, on either side, is T itself.
    let t = Transform3D::rotation_z(700_000).compose(&Transform3D::translation(
        3 * UNIT,
        -2 * UNIT,
        UNIT,
    ));
    let identity = Transform3D::identity();

    assert_eq!(t.compose(&identity), t);
    assert_eq!(identity.compose(&t), t);

    // And the identity leaves points unchanged.
    let p = Point3D::new(123_456, -987_654, 42);
    assert_eq!(identity.transform_point(&p), p);
}

#[test]
fn prop_compose_associativity_within_tolerance() {
    // (A . B) . C agrees with A . (B . C) up to the one rounding step each
    // entry takes; the exact model is associative outright.
    let a = Transform3D::rotation_z(400_000);
    let b = Transform3D::translation(UNIT, 2 * UNIT, 0).compose(&Transform3D::rotation_x(
        -900_000,
    ));
    let c = Transform3D::rotation_y(1_200_000).compose(&Transform3D::translation(0, 0, UNIT));

    let left = a.compose(&b).compose(&c);
    let right = a.compose(&b.compose(&c));

    let p = Point3D::new(UNIT, UNIT, UNIT);
    let lp = left.transform_point(&p);
    let rp = right.transform_point(&p);
    assert!(approx_eq(lp.x, rp.x));
    assert!(approx_eq(lp.y, rp.y));
    assert!(approx_eq(lp.z, rp.z));
}

#[test]
fn prop_rotation_roundtrip() {
    // Rotating a point by an angle and then by its opposite, about the same
    // axis, returns the original point (exactly so in the exact model; here
    // up to the rounding of the trigonometric grid values).
    let theta: i64 = 300_000;
    let p = Point3D::new(UNIT, 250_000, -750_000);

    let there = Transform3D::rotation_z(theta).transform_point(&p);
    let back = Transform3D::rotation_z(-theta).transform_point(&there);
    assert!(approx_eq(back.x, p.x));
    assert!(approx_eq(back.y, p.y));
    assert!(approx_eq(back.z, p.z));

    let there_x = Transform3D::rotation_x(theta).transform_point(&p);
    let back_x = Transform3D::rotation_x(-theta).transform_point(&there_x);
    assert!(approx_eq(back_x.x, p.x));
    assert!(approx_eq(back_x.y, p.y));
    assert!(approx_eq(back_x.z, p.z));
}

#[test]
fn prop_trig_symmetry_is_exact() {
    // Sine is odd and cosine is even, exactly, on the grid.
    for &angle in &[0i64, 1, 123_456, HALF_PI_U, PI_U, 5_000_000, 123_456_789] {
        assert_eq!(sin_scaled(-angle), -sin_scaled(angle));
        assert_eq!(cos_scaled(-angle), cos_scaled(angle));
    }
}

#[test]
fn prop_trig_anchor_values() {
    // Exact anchors of the grid trigonometry.
    assert_eq!(sin_scaled(0), 0);
    assert_eq!(cos_scaled(0), UNIT);
    assert_eq!(sin_scaled(PI_U), 0);
    assert_eq!(cos_scaled(PI_U), -UNIT);

    // Near anchors, within the polynomial's accuracy.
    assert!(approx_eq(sin_scaled(HALF_PI_U), UNIT));
    assert!(approx_eq(cos_scaled(HALF_PI_U), 0));

    // The Pythagorean identity, within tolerance, at an ordinary angle.
    let c = cos_scaled(654_321) as i128;
    let s = sin_scaled(654_321) as i128;
    let norm = c * c + s * s - (UNIT as i128) * (UNIT as i128);
    assert!(norm.abs() < 10_000_000_000); // about 1e-5 of a squared unit
}

#[test]
fn prop_dh_zero_is_identity() {
    // A revolute DH parameter (a=0, alpha=0, d=0, offset=0) at joint value
    // zero produces the identity transform, exactly.
    let dh = DHParameter::revolute(0, 0, 0, 0).with_joint_value(0);
    assert_eq!(dh.to_transform(), Transform3D::identity());
}

#[test]
fn prop_dh_link_length_maps_origin() {
    // A DH parameter with only a=2.0 maps the origin to (2, 0, 0), exactly.
    let dh = DHParameter::revolute(2 * UNIT, 0, 0, 0);
    let result = dh.to_transform().transform_point(&Point3D::origin());
    assert_eq!(result, Point3D::new(2 * UNIT, 0, 0));
}

#[test]
fn prop_dh_quarter_turn_maps_x_to_y() {
    // A DH parameter with only theta at a quarter turn maps (1,0,0) near
    // (0,1,0).
    let dh = DHParameter::revolute(0, 0, 0, HALF_PI_U);
    let result = dh.to_transform().transform_point(&Point3D::new(UNIT, 0, 0));
    assert!(approx_eq(result.x, 0));
    assert!(approx_eq(result.y, UNIT));
    assert!(approx_eq(result.z, 0));
}

#[test]
fn prop_with_joint_value_touches_only_live_field() {
    let rev = DHParameter {
        a: UNIT,
        alpha: 200_000,
        d: 300_000,
        theta: 400_000,
        joint_type: JointType::Revolute,
        joint_offset: 50_000,
    };
    let rev_up = rev.with_joint_value(111_111);
    assert_eq!(rev_up.theta, 161_111); // offset + value
    assert_eq!(rev_up.d, rev.d);
    assert_eq!(rev_up.a, rev.a);
    assert_eq!(rev_up.alpha, rev.alpha);
    assert_eq!(rev_up.joint_offset, rev.joint_offset);
    assert_eq!(rev_up.joint_type, rev.joint_type);

    let pri = DHParameter {
        a: UNIT,
        alpha: 200_000,
        d: 300_000,
        theta: 400_000,
        joint_type: JointType::Prismatic,
        joint_offset: 50_000,
    };
    let pri_up = pri.with_joint_value(111_111);
    assert_eq!(pri_up.d, 161_111); // offset + value
    assert_eq!(pri_up.theta, pri.theta);
    assert_eq!(pri_up.a, pri.a);
    assert_eq!(pri_up.alpha, pri.alpha);
    assert_eq!(pri_up.joint_offset, pri.joint_offset);
    assert_eq!(pri_up.joint_type, pri.joint_type);
}

#[test]
fn prop_planar_representations_agree_exactly() {
    // A planar chain built via DH representation and one built from simple
    // link lengths produce identical position sequences: the agreement is
    // exact in this arithmetic, not merely within tolerance.
    let lengths = vec![2 * UNIT, 1_500_000, 800_000];
    let angle_sets = vec![
        vec![0i64, 0, 0],
        vec![HALF_PI_U, 0, -HALF_PI_U],
        vec![400_000, -900_000, 2_718_281],
        vec![0, PI_U, 0],
    ];

    for angles in angle_sets {
        let mut simple = RobotArm::new(lengths.clone());
        simple.set_joint_angles(angles.clone()).unwrap();
        let mut dh = RobotArm::planar(lengths.clone());
        dh.set_joint_angles(angles).unwrap();

        let p_simple = forward_kinematics(&simple);
        let p_dh = forward_kinematics(&dh);
        assert_eq!(p_simple.len(), p_dh.len());
        for i in 0..p_simple.len() {
            assert_eq!(p_simple[i], p_dh[i]);
        }
    }
}

#[test]
fn prop_wrong_arity_reports_and_preserves() {
    // On a DH chain too: the rejected update reports the condition and the
    // previous values survive, whether too short or too long.
    let mut robot = RobotArm::planar(vec![UNIT, UNIT]);
    robot.set_joint_angles(vec![7, 8]).unwrap();

    assert_eq!(robot.set_joint_angles(vec![1]), Err(KinematicsError::InvalidJointVector));
    assert_eq!(robot.joint_angles, vec![7, 8]);
    assert_eq!(
        robot.set_joint_angles(vec![1, 2, 3]),
        Err(KinematicsError::InvalidJointVector)
    );
    assert_eq!(robot.joint_angles, vec![7, 8]);
}

#[test]
fn prop_position_count_is_joints_plus_one() {
    // The position sequence always has joint_count() + 1 entries, and an
    // empty chain still reports its base.
    let empty = RobotArm::new(vec![]);
    let positions = forward_kinematics(&empty);
    assert_eq!(positions.len(), 1);
    assert_eq!(positions[0].x, 0);
    assert_eq!(positions[0].y, 0);
    assert_eq!(positions[0].z, 0);

    for n in 1..6usize {
        let arm = RobotArm::planar(vec![UNIT; n]);
        assert_eq!(forward_kinematics(&arm).len(), arm.num_joints() + 1);
    }
}

#[test]
fn prop_prismatic_joint_extends_along_z() {
    // A prismatic joint's commanded value moves the frame along Z.
    let dh_params = vec![DHParameter::prismatic(0, 0, 250_000, 0)];
    let mut robot = RobotArm::from_dh_params(dh_params);
    robot.set_joint_angles(vec![500_000]).unwrap();

    let positions = forward_kinematics(&robot);
    assert_eq!(positions.len(), 2);
    assert_eq!(positions[1].x, 0);
    assert_eq!(positions[1].y, 0);
    assert_eq!(positions[1].z, 750_000); // 0.25 offset + 0.5 value
}
