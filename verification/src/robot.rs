//! The kinematic chain: an ordered list of links plus the current joint
//! values, one per link.
//!
//! A chain is either "simple planar" — a bare length per link, implying a
//! revolute joint that rotates about Z and translates along X — or fully
//! DH-parameterized.  The joint-value vector always has one entry per link;
//! an update of the wrong arity is rejected and leaves the chain unchanged.

use vstd::prelude::*;
use crate::dh_parameters::{DHParameter, JointType, with_joint_value_spec};

verus! {

/// A reported failure of a chain operation.
#[derive(Clone, Copy, PartialEq, Eq, Structural, Debug)]
pub enum KinematicsError {
    /// `set_joint_angles` was called with a vector of the wrong length.
    InvalidJointVector,
}

/// The link specification of a chain: one of the two representations.
pub enum LinkSpec {
    /// One bare link length per joint; planar revolute motion is implied.
    SimplePlanar(Vec<i64>),
    /// One full DH parameter set per joint.
    DhParameterized(Vec<DHParameter>),
}

/// A serial-link robot arm.
pub struct RobotArm {
    /// The immutable link specification, fixed at construction.
    pub links: LinkSpec,
    /// Current joint values, index-aligned with the links: an angle in
    /// microradians for a revolute joint, a distance for a prismatic one.
    pub joint_angles: Vec<i64>,
}

/// The number of links in the specification.
pub open spec fn link_count(a: RobotArm) -> int {
    match a.links {
        LinkSpec::SimplePlanar(lengths) => lengths@.len() as int,
        LinkSpec::DhParameterized(params) => params@.len() as int,
    }
}

/// The chain invariant: one joint value per link.
pub open spec fn arm_wf(a: RobotArm) -> bool {
    a.joint_angles@.len() as int == link_count(a)
}

/// The link lengths of a simple planar chain (empty for a DH chain).
pub open spec fn simple_lengths(a: RobotArm) -> Seq<i64> {
    match a.links {
        LinkSpec::SimplePlanar(lengths) => lengths@,
        LinkSpec::DhParameterized(params) => Seq::empty(),
    }
}

/// The DH parameter sets of a DH chain (empty for a simple chain).
pub open spec fn dh_params_of(a: RobotArm) -> Seq<DHParameter> {
    match a.links {
        LinkSpec::SimplePlanar(lengths) => Seq::empty(),
        LinkSpec::DhParameterized(params) => params@,
    }
}

/// One planar DH parameter set per link length.
pub open spec fn planar_params(lengths: Seq<i64>) -> Seq<DHParameter> {
    Seq::new(lengths.len(), |i: int| DHParameter {
        a: lengths[i],
        alpha: 0i64,
        d: 0i64,
        theta: 0i64,
        joint_type: JointType::Revolute,
        joint_offset: 0i64,
    })
}

/// A vector of `n` zeroed joint values.
fn zero_values(n: usize) -> (r: Vec<i64>)
    ensures
        r@.len() == n,
        forall|i: int| 0 <= i < n ==> r@[i] == 0i64,
{
    let mut values: Vec<i64> = Vec::new();
    let mut i: usize = 0;
    while i < n
        invariant
            i <= n,
            values@.len() == i,
            forall|j: int| 0 <= j < i ==> values@[j] == 0i64,
        decreases n - i,
    {
        values.push(0);
        i = i + 1;
    }
    values
}

impl RobotArm {
    /// A simple planar chain from bare link lengths; every joint value
    /// starts at zero.
    pub fn new(link_lengths: Vec<i64>) -> (r: Self)
        ensures
            r.links is SimplePlanar,
            simple_lengths(r) == link_lengths@,
            r.joint_angles@.len() == link_lengths@.len(),
            forall|i: int| 0 <= i < r.joint_angles@.len() ==> r.joint_angles@[i] == 0i64,
            arm_wf(r),
    {
        let num_joints = link_lengths.len();
        RobotArm {
            links: LinkSpec::SimplePlanar(link_lengths),
            joint_angles: zero_values(num_joints),
        }
    }

    /// A chain from explicit DH parameter sets; every joint value starts at
    /// zero.
    pub fn from_dh_params(dh_params: Vec<DHParameter>) -> (r: Self)
        ensures
            r.links is DhParameterized,
            dh_params_of(r) == dh_params@,
            r.joint_angles@.len() == dh_params@.len(),
            forall|i: int| 0 <= i < r.joint_angles@.len() ==> r.joint_angles@[i] == 0i64,
            arm_wf(r),
    {
        let num_joints = dh_params.len();
        RobotArm {
            links: LinkSpec::DhParameterized(dh_params),
            joint_angles: zero_values(num_joints),
        }
    }

    /// A planar chain in DH representation: one planar parameter set per
    /// link length.  Kinematically identical to `new` on the same lengths.
    pub fn planar(link_lengths: Vec<i64>) -> (r: Self)
        ensures
            r.links is DhParameterized,
            dh_params_of(r) == planar_params(link_lengths@),
            r.joint_angles@.len() == link_lengths@.len(),
            forall|i: int| 0 <= i < r.joint_angles@.len() ==> r.joint_angles@[i] == 0i64,
            arm_wf(r),
    {
        let n = link_lengths.len();
        let mut dh_params: Vec<DHParameter> = Vec::new();
        let mut i: usize = 0;
        while i < n
            invariant
                i <= n,
                link_lengths@.len() == n,
                dh_params@.len() == i,
                forall|j: int| 0 <= j < i ==> dh_params@[j] == planar_params(link_lengths@)[j],
            decreases n - i,
        {
            dh_params.push(DHParameter::planar(link_lengths[i]));
            i = i + 1;
        }
        proof {
            assert(dh_params@ =~= planar_params(link_lengths@));
        }
        RobotArm {
            links: LinkSpec::DhParameterized(dh_params),
            joint_angles: zero_values(n),
        }
    }

    /// Replace the joint values.  The new vector must have exactly one entry
    /// per link: on a length mismatch the call fails with
    /// `InvalidJointVector` and the previous values stay in place.
    pub fn set_joint_angles(&mut self, angles: Vec<i64>) -> (r: Result<(), KinematicsError>)
        ensures
            angles@.len() == old(self).joint_angles@.len() ==> {
                &&& r is Ok
                &&& final(self).joint_angles@ == angles@
                &&& final(self).links == old(self).links
            },
            angles@.len() != old(self).joint_angles@.len() ==> {
                &&& r == Err::<(), KinematicsError>(KinematicsError::InvalidJointVector)
                &&& *final(self) == *old(self)
            },
    {
        if angles.len() == self.joint_angles.len() {
            self.joint_angles = angles;
            Ok(())
        } else {
            Err(KinematicsError::InvalidJointVector)
        }
    }

    /// The number of joints, fixed at construction.
    pub fn num_joints(&self) -> (r: usize)
        ensures
            r == self.joint_angles@.len(),
    {
        self.joint_angles.len()
    }

    /// Whether this chain carries full DH parameters.
    pub fn uses_dh_params(&self) -> (r: bool)
        ensures
            r == (self.links is DhParameterized),
    {
        match &self.links {
            LinkSpec::SimplePlanar(_) => false,
            LinkSpec::DhParameterized(_) => true,
        }
    }

    /// For a DH chain, the per-link parameter sets with the current joint
    /// values substituted into the live fields, aligned by index; `None` for
    /// a simple planar chain.
    pub fn get_dh_with_current_values(&self) -> (r: Option<Vec<DHParameter>>)
        requires
            arm_wf(*self),
        ensures
            self.links is SimplePlanar ==> r is None,
            self.links is DhParameterized ==> {
                &&& r is Some
                &&& r->Some_0@.len() == dh_params_of(*self).len()
                &&& forall|i: int| 0 <= i < dh_params_of(*self).len()
                    ==> r->Some_0@[i] == with_joint_value_spec(
                        dh_params_of(*self)[i],
                        self.joint_angles@[i],
                    )
            },
    {
        match &self.links {
            LinkSpec::SimplePlanar(_) => None,
            LinkSpec::DhParameterized(params) => {
                let n = params.len();
                let mut merged: Vec<DHParameter> = Vec::new();
                let mut i: usize = 0;
                while i < n
                    invariant
                        i <= n,
                        params@.len() == n,
                        self.joint_angles@.len() == n,
                        merged@.len() == i,
                        forall|j: int| 0 <= j < i ==> merged@[j] == with_joint_value_spec(
                            params@[j],
                            self.joint_angles@[j],
                        ),
                    decreases n - i,
                {
                    merged.push(params[i].with_joint_value(self.joint_angles[i]));
                    i = i + 1;
                }
                Some(merged)
            },
        }
    }
}

} // verus!
