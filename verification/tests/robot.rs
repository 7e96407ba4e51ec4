//! Kinematic chain state behaviour.

use robot_kinematics::dh_parameters::DHParameter;
use robot_kinematics::robot::{KinematicsError, LinkSpec, RobotArm};

/// One unit on the fixed-point grid.
const UNIT: i64 = 1_000_000;

#[test]
fn test_robot_creation() {
    let robot = RobotArm::new(vec![2 * UNIT, 1_500_000]);
    assert_eq!(robot.num_joints(), 2);
    match &robot.links {
        LinkSpec::SimplePlanar(lengths) => assert_eq!(lengths, &vec![2 * UNIT, 1_500_000]),
        LinkSpec::DhParameterized(_) => panic!("expected a simple planar chain"),
    }
    assert_eq!(robot.joint_angles, vec![0, 0]);
    assert!(!robot.uses_dh_params());
}

#[test]
fn test_set_joint_angles() {
    let mut robot = RobotArm::new(vec![2 * UNIT, 1_500_000]);
    let result = robot.set_joint_angles(vec![1_570_000, 780_000]);
    assert!(result.is_ok());
    assert_eq!(robot.joint_angles, vec![1_570_000, 780_000]);
}

#[test]
fn test_set_joint_angles_wrong_length() {
    let mut robot = RobotArm::new(vec![2 * UNIT, 1_500_000]);
    let result = robot.set_joint_angles(vec![1_570_000]);
    // The update is rejected and reported; the previous values stay.
    assert_eq!(result, Err(KinematicsError::InvalidJointVector));
    assert_eq!(robot.joint_angles, vec![0, 0]);
}

#[test]
fn test_planar_robot_with_dh() {
    let robot = RobotArm::planar(vec![2 * UNIT, 1_500_000]);
    assert_eq!(robot.num_joints(), 2);
    assert!(robot.uses_dh_params());
}

#[test]
fn test_dh_robot_creation() {
    let dh_params = vec![
        DHParameter::revolute(UNIT, 0, 0, 0),
        DHParameter::revolute(1_500_000, 0, 0, 0),
    ];

    let robot = RobotArm::from_dh_params(dh_params);
    assert_eq!(robot.num_joints(), 2);
    assert!(robot.uses_dh_params());
}

#[test]
fn test_get_dh_with_current_values() {
    let robot = RobotArm::planar(vec![2 * UNIT, 1_500_000]);
    let dh_params = robot.get_dh_with_current_values();

    assert!(dh_params.is_some());
    let params = dh_params.unwrap();
    assert_eq!(params.len(), 2);
    assert_eq!(params[0].a, 2 * UNIT);
    assert_eq!(params[1].a, 1_500_000);
}

#[test]
fn test_simple_robot_no_dh() {
    let robot = RobotArm::new(vec![2 * UNIT, 1_500_000]);
    assert!(robot.get_dh_with_current_values().is_none());
}
