//! Forward kinematics: walk the chain once, accumulating a running
//! transform, and emit the world-frame position of every joint frame.
//!
//! The output always has one entry more than the chain has links: the chain
//! origin first, then one point per link's distal frame, ending with the
//! end-effector.  Each emitted point is the image of the geometric origin
//! under the accumulator after composing that link's transform.

use vstd::prelude::*;
use vstd::pervasive::unreached;
use crate::dh_parameters::{with_joint_value_spec, dh_transform_spec, lemma_planar_link};
use crate::geometry3d::{Point3D, Transform3D, wf3, compose_t, apply_t, ident_t, rz_t, trans_t};
use crate::robot::{RobotArm, LinkSpec, arm_wf, simple_lengths, dh_params_of, planar_params};

verus! {

/// A joint position reported to the caller; coordinates in millionths of a
/// unit, like `Point3D`.
#[derive(Clone, Copy, PartialEq, Eq, Structural, Debug)]
pub struct JointPosition3D {
    pub x: i64,
    pub y: i64,
    pub z: i64,
}

/// The reported form of a computed point.
pub open spec fn jp_of(p: Point3D) -> JointPosition3D {
    JointPosition3D { x: p.x, y: p.y, z: p.z }
}

/// The geometric origin.
pub open spec fn origin_point() -> Point3D {
    Point3D { x: 0i64, y: 0i64, z: 0i64 }
}

impl JointPosition3D {
    /// A position with the given fixed-point coordinates.
    pub fn new(x: i64, y: i64, z: i64) -> (r: Self)
        ensures
            r == (JointPosition3D { x, y, z }),
    {
        JointPosition3D { x, y, z }
    }

    /// The reported form of a computed point.
    pub fn from_point(point: &Point3D) -> (r: Self)
        ensures
            r == jp_of(*point),
    {
        JointPosition3D { x: point.x, y: point.y, z: point.z }
    }
}

/// The per-link transforms of a chain under its current joint values: for a
/// DH chain each parameter set with its joint value applied, converted in DH
/// order; for a simple planar chain a Z rotation by the joint value followed
/// by an X translation by the link length.
pub open spec fn link_transforms(a: RobotArm) -> Seq<Transform3D> {
    match a.links {
        LinkSpec::SimplePlanar(lengths) => Seq::new(
            lengths@.len(),
            |i: int| compose_t(rz_t(a.joint_angles@[i]), trans_t(lengths@[i], 0i64, 0i64)),
        ),
        LinkSpec::DhParameterized(params) => Seq::new(
            params@.len(),
            |i: int| dh_transform_spec(with_joint_value_spec(params@[i], a.joint_angles@[i])),
        ),
    }
}

/// The accumulated transform after the first `i` links.
pub open spec fn chain_acc(ts: Seq<Transform3D>, i: int) -> Transform3D
    decreases i,
{
    if i <= 0 {
        ident_t()
    } else {
        compose_t(chain_acc(ts, i - 1), ts[i - 1])
    }
}

/// The full position sequence: the image of the origin under every prefix
/// of the chain, base frame first, end-effector last.
pub open spec fn fk_positions(ts: Seq<Transform3D>) -> Seq<JointPosition3D> {
    Seq::new(ts.len() + 1, |i: int| jp_of(apply_t(chain_acc(ts, i), origin_point())))
}

/// Positions of all joints of the chain, including base and end-effector:
/// exactly `num_joints() + 1` entries.
pub fn forward_kinematics(robot: &RobotArm) -> (r: Vec<JointPosition3D>)
    requires
        arm_wf(*robot),
    ensures
        r@ == fk_positions(link_transforms(*robot)),
        r@.len() == robot.joint_angles@.len() + 1,
{
    if robot.uses_dh_params() {
        forward_kinematics_dh(robot)
    } else {
        forward_kinematics_planar(robot)
    }
}

/// Forward kinematics of a DH-parameterized chain.
fn forward_kinematics_dh(robot: &RobotArm) -> (r: Vec<JointPosition3D>)
    requires
        arm_wf(*robot),
        robot.links is DhParameterized,
    ensures
        r@ == fk_positions(link_transforms(*robot)),
        r@.len() == robot.joint_angles@.len() + 1,
{
    let ghost ts = link_transforms(*robot);
    let mut positions: Vec<JointPosition3D> = Vec::new();
    let mut current_transform = Transform3D::identity();
    positions.push(JointPosition3D::from_point(&Point3D::origin()));
    proof {
        assert(positions@[0] == fk_positions(ts)[0]);
    }
    match &robot.links {
        LinkSpec::SimplePlanar(_) => unreached(),
        LinkSpec::DhParameterized(params) => {
            let n = params.len();
            let mut i: usize = 0;
            while i < n
                invariant
                    i <= n,
                    robot.links == LinkSpec::DhParameterized(*params),
                    params@.len() == n,
                    robot.joint_angles@.len() == n,
                    ts == link_transforms(*robot),
                    ts.len() == n,
                    current_transform == chain_acc(ts, i as int),
                    wf3(current_transform),
                    positions@.len() == i + 1,
                    forall|j: int| 0 <= j <= i ==> positions@[j] == fk_positions(ts)[j],
                decreases n - i,
            {
                let ghost k = i as int;
                let dh = params[i].with_joint_value(robot.joint_angles[i]);
                let link_transform = dh.to_transform();
                proof {
                    assert(link_transform == ts[k]);
                }
                current_transform = current_transform.compose(&link_transform);
                proof {
                    assert(current_transform == chain_acc(ts, k + 1));
                }
                let joint_pos = current_transform.transform_point(&Point3D::origin());
                positions.push(JointPosition3D::from_point(&joint_pos));
                proof {
                    assert(positions@[k + 1] == fk_positions(ts)[k + 1]);
                }
                i = i + 1;
            }
            proof {
                assert(positions@ =~= fk_positions(ts));
            }
            positions
        },
    }
}

/// Forward kinematics of a simple planar chain: each link contributes a Z
/// rotation by its joint value composed with an X translation by its length.
fn forward_kinematics_planar(robot: &RobotArm) -> (r: Vec<JointPosition3D>)
    requires
        arm_wf(*robot),
        robot.links is SimplePlanar,
    ensures
        r@ == fk_positions(link_transforms(*robot)),
        r@.len() == robot.joint_angles@.len() + 1,
{
    let ghost ts = link_transforms(*robot);
    let mut positions: Vec<JointPosition3D> = Vec::new();
    let mut current_transform = Transform3D::identity();
    let base = current_transform.transform_point(&Point3D::origin());
    positions.push(JointPosition3D::from_point(&base));
    proof {
        assert(positions@[0] == fk_positions(ts)[0]);
    }
    match &robot.links {
        LinkSpec::DhParameterized(_) => unreached(),
        LinkSpec::SimplePlanar(lengths) => {
            let n = lengths.len();
            let mut i: usize = 0;
            while i < n
                invariant
                    i <= n,
                    robot.links == LinkSpec::SimplePlanar(*lengths),
                    lengths@.len() == n,
                    robot.joint_angles@.len() == n,
                    ts == link_transforms(*robot),
                    ts.len() == n,
                    current_transform == chain_acc(ts, i as int),
                    wf3(current_transform),
                    positions@.len() == i + 1,
                    forall|j: int| 0 <= j <= i ==> positions@[j] == fk_positions(ts)[j],
                decreases n - i,
            {
                let ghost k = i as int;
                let rotation = Transform3D::rotation_z(robot.joint_angles[i]);
                let translation = Transform3D::translation(lengths[i], 0, 0);
                let link_transform = rotation.compose(&translation);
                proof {
                    assert(link_transform == ts[k]);
                }
                current_transform = current_transform.compose(&link_transform);
                proof {
                    assert(current_transform == chain_acc(ts, k + 1));
                }
                let joint_pos = current_transform.transform_point(&Point3D::origin());
                positions.push(JointPosition3D::from_point(&joint_pos));
                proof {
                    assert(positions@[k + 1] == fk_positions(ts)[k + 1]);
                }
                i = i + 1;
            }
            proof {
                assert(positions@ =~= fk_positions(ts));
            }
            positions
        },
    }
}

/// A planar chain in DH representation and a simple planar chain with the
/// same link lengths and the same joint values produce the same position
/// sequence, entry for entry, exactly: the zero twist and zero offset of the
/// planar DH form compose away without rounding.
pub proof fn lemma_planar_dh_agree(simple: RobotArm, dh: RobotArm)
    requires
        arm_wf(simple),
        arm_wf(dh),
        simple.links is SimplePlanar,
        dh.links is DhParameterized,
        dh_params_of(dh) == planar_params(simple_lengths(simple)),
        dh.joint_angles@ == simple.joint_angles@,
    ensures
        fk_positions(link_transforms(dh)) == fk_positions(link_transforms(simple)),
{
    let ts1 = link_transforms(simple);
    let ts2 = link_transforms(dh);
    let lengths = simple_lengths(simple);
    assert(ts1.len() == ts2.len());
    assert forall|i: int| 0 <= i < ts1.len() implies ts2[i] == ts1[i] by {
        assert(dh_params_of(dh)[i] == planar_params(lengths)[i]);
        lemma_planar_link(lengths[i], simple.joint_angles@[i]);
    }
    assert(ts2 =~= ts1);
}

} // verus!
