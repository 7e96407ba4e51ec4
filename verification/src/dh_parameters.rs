//! Denavit-Hartenberg link parameters.
//!
//! The four classic DH scalars plus a joint-kind tag and a calibration
//! offset.  Lengths (`a`, `d`) are in millionths of a unit and angles
//! (`alpha`, `theta`, and the offset of a revolute joint) in microradians.
//! A parameter set converts to a single link transform in the standard
//! (classic) DH composition order
//! `Rot(Z, theta) * Trans(Z, d) * Trans(X, a) * Rot(X, alpha)`.

use vstd::prelude::*;
use crate::fixed::{sadd, saturating_add64};
use crate::geometry3d::{Transform3D, wf3, compose_t, rz_t, rx_t, trans_t, ident_t,
    lemma_compose_identity, lemma_round_pm_wf, pm_of};
use crate::model::mul_pm;
use crate::trig::lemma_trig_zero;
use crate::fixed::lemma_ent_range;
use crate::trig::{sin_fp, cos_fp, lemma_trig_bounds};

verus! {

/// Kind of joint in the robot.
#[derive(Clone, Copy, PartialEq, Eq, Structural, Debug)]
pub enum JointType {
    /// Revolute joint: `theta` is the controlled variable, `d` is fixed.
    Revolute,
    /// Prismatic joint: `d` is the controlled variable, `theta` is fixed.
    Prismatic,
}

/// Denavit-Hartenberg parameters for a single link.
#[derive(Clone, Copy, PartialEq, Eq, Structural, Debug)]
pub struct DHParameter {
    /// Link length: distance along the X axis.
    pub a: i64,
    /// Link twist: rotation around the X axis, in microradians.
    pub alpha: i64,
    /// Link offset: distance along the Z axis.
    pub d: i64,
    /// Joint angle: rotation around the Z axis, in microradians.
    pub theta: i64,
    /// Kind of joint: decides which of `theta` and `d` is live.
    pub joint_type: JointType,
    /// Offset added to the commanded joint value (homing or calibration).
    pub joint_offset: i64,
}

/// The parameter set with the live field replaced by `offset + value`
/// (saturating at the `i64` range ends) and every other field unchanged.
pub open spec fn with_joint_value_spec(p: DHParameter, value: i64) -> DHParameter {
    match p.joint_type {
        JointType::Revolute => DHParameter {
            a: p.a,
            alpha: p.alpha,
            d: p.d,
            theta: sadd(p.joint_offset as int, value as int),
            joint_type: p.joint_type,
            joint_offset: p.joint_offset,
        },
        JointType::Prismatic => DHParameter {
            a: p.a,
            alpha: p.alpha,
            d: sadd(p.joint_offset as int, value as int),
            theta: p.theta,
            joint_type: p.joint_type,
            joint_offset: p.joint_offset,
        },
    }
}

/// The single-link transform in the standard DH composition order:
/// `Rot(Z, theta) * Trans(Z, d) * Trans(X, a) * Rot(X, alpha)`.
pub open spec fn dh_transform_spec(p: DHParameter) -> Transform3D {
    compose_t(
        compose_t(
            compose_t(rz_t(p.theta), trans_t(0i64, 0i64, p.d)),
            trans_t(p.a, 0i64, 0i64),
        ),
        rx_t(p.alpha),
    )
}

impl DHParameter {
    /// A revolute joint: `theta` starts at its offset, so the commanded
    /// joint value `0` is the initial pose.
    pub fn revolute(a: i64, alpha: i64, d: i64, theta_offset: i64) -> (r: Self)
        ensures
            r == (DHParameter {
                a,
                alpha,
                d,
                theta: theta_offset,
                joint_type: JointType::Revolute,
                joint_offset: theta_offset,
            }),
    {
        DHParameter {
            a,
            alpha,
            d,
            theta: theta_offset,
            joint_type: JointType::Revolute,
            joint_offset: theta_offset,
        }
    }

    /// A prismatic joint: `d` starts at its offset.
    pub fn prismatic(a: i64, alpha: i64, d_offset: i64, theta: i64) -> (r: Self)
        ensures
            r == (DHParameter {
                a,
                alpha,
                d: d_offset,
                theta,
                joint_type: JointType::Prismatic,
                joint_offset: d_offset,
            }),
    {
        DHParameter {
            a,
            alpha,
            d: d_offset,
            theta,
            joint_type: JointType::Prismatic,
            joint_offset: d_offset,
        }
    }

    /// A planar revolute joint: no twist, no offset, no calibration.
    pub fn planar(link_length: i64) -> (r: Self)
        ensures
            r == (DHParameter {
                a: link_length,
                alpha: 0i64,
                d: 0i64,
                theta: 0i64,
                joint_type: JointType::Revolute,
                joint_offset: 0i64,
            }),
    {
        DHParameter::revolute(link_length, 0, 0, 0)
    }

    /// A copy of this parameter set with the commanded joint value applied:
    /// `theta` becomes `joint_offset + value` for a revolute joint, `d`
    /// becomes `joint_offset + value` for a prismatic joint, and nothing
    /// else changes.
    pub fn with_joint_value(&self, value: i64) -> (r: Self)
        ensures
            r == with_joint_value_spec(*self, value),
    {
        match self.joint_type {
            JointType::Revolute => DHParameter {
                theta: saturating_add64(self.joint_offset, value),
                ..*self
            },
            JointType::Prismatic => DHParameter {
                d: saturating_add64(self.joint_offset, value),
                ..*self
            },
        }
    }

    /// The homogeneous transform of this link, composed in exactly the
    /// standard DH order.
    pub fn to_transform(&self) -> (r: Transform3D)
        ensures
            r == dh_transform_spec(*self),
            wf3(r),
    {
        let rot_z = Transform3D::rotation_z(self.theta);
        let trans_z = Transform3D::translation(0, 0, self.d);
        let trans_x = Transform3D::translation(self.a, 0, 0);
        let rot_x = Transform3D::rotation_x(self.alpha);
        rot_z.compose(&trans_z).compose(&trans_x).compose(&rot_x)
    }
}

/// Applying a joint value touches only the live field: for a revolute joint
/// `theta` (with `d` untouched), for a prismatic joint `d` (with `theta`
/// untouched); the fixed scalars, the kind and the calibration offset are
/// copied unchanged.
pub proof fn lemma_with_joint_value_frame(p: DHParameter, value: i64)
    ensures
        with_joint_value_spec(p, value).a == p.a,
        with_joint_value_spec(p, value).alpha == p.alpha,
        with_joint_value_spec(p, value).joint_type == p.joint_type,
        with_joint_value_spec(p, value).joint_offset == p.joint_offset,
        p.joint_type == JointType::Revolute ==> {
            &&& with_joint_value_spec(p, value).d == p.d
            &&& with_joint_value_spec(p, value).theta
                == sadd(p.joint_offset as int, value as int)
        },
        p.joint_type == JointType::Prismatic ==> {
            &&& with_joint_value_spec(p, value).theta == p.theta
            &&& with_joint_value_spec(p, value).d
                == sadd(p.joint_offset as int, value as int)
        },
{
}

/// A planar joint at commanded value `v` contributes exactly a Z rotation by
/// `v` followed by an X translation by its length: the zero twist and zero
/// offset of the planar form compose away without any rounding.
pub proof fn lemma_planar_link(len: i64, v: i64)
    ensures
        dh_transform_spec(with_joint_value_spec(
            DHParameter {
                a: len,
                alpha: 0i64,
                d: 0i64,
                theta: 0i64,
                joint_type: JointType::Revolute,
                joint_offset: 0i64,
            },
            v,
        )) == compose_t(rz_t(v), trans_t(len, 0i64, 0i64)),
{
    let p = with_joint_value_spec(
        DHParameter {
            a: len,
            alpha: 0i64,
            d: 0i64,
            theta: 0i64,
            joint_type: JointType::Revolute,
            joint_offset: 0i64,
        },
        v,
    );
    assert(p.theta == v);
    lemma_trig_zero();
    lemma_ent_range(0int);
    assert(trans_t(0i64, 0i64, 0i64) == ident_t());
    assert(rx_t(0i64) == ident_t());
    lemma_trig_bounds(v as int);
    lemma_ent_range(cos_fp(v as int));
    lemma_ent_range(-sin_fp(v as int));
    lemma_ent_range(sin_fp(v as int));
    lemma_compose_identity(rz_t(v));
    assert(compose_t(rz_t(v), trans_t(0i64, 0i64, 0i64)) == rz_t(v));
    let m = compose_t(rz_t(v), trans_t(len, 0i64, 0i64));
    lemma_round_pm_wf(mul_pm(pm_of(rz_t(v)), pm_of(trans_t(len, 0i64, 0i64))));
    lemma_compose_identity(m);
    assert(compose_t(m, rx_t(0i64)) == m);
}

} // verus!
