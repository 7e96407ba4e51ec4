//! Points and rigid homogeneous transforms in the plane.
//!
//! The planar mirror of `crate::geometry3d`: a `Transform2D` is a 3x3
//! homogeneous matrix on the fixed-point grid with implicit bottom row
//! `(0, 0, SCALE)`, composed by multiplying exactly and rounding each entry
//! once back onto the grid.

use vstd::prelude::*;
use crate::fixed::{SCALE, ENTRY_LIMIT, rdiv, ent, lemma_ent_range, lemma_rdiv_exact,
    lemma_grid_rounding, lemma_mul_abs_bound, rdiv_e, sat_e, clamp_entry, in_grid, half_step};
use crate::model::{ProjMat2, mul_pm2, rot_pm2};
use crate::trig::{sin_fp, cos_fp, sin_scaled, cos_scaled, lemma_trig_bounds};
use vstd::arithmetic::mul::lemma_mul_is_commutative;

verus! {

/// A point in the plane; coordinates are in millionths of a unit.
#[derive(Clone, Copy, PartialEq, Eq, Structural, Debug)]
pub struct Point2D {
    pub x: i64,
    pub y: i64,
}

impl Point2D {
    /// A point with the given fixed-point coordinates.
    pub fn new(x: i64, y: i64) -> (r: Self)
        ensures
            r == (Point2D { x, y }),
    {
        Point2D { x, y }
    }

    /// The origin.
    pub fn origin() -> (r: Self)
        ensures
            r == (Point2D { x: 0i64, y: 0i64 }),
    {
        Point2D { x: 0, y: 0 }
    }
}

/// A rigid planar homogeneous transform; bottom row `(0, 0, SCALE)` implicit.
#[derive(Clone, Copy, PartialEq, Eq, Structural, Debug)]
pub struct Transform2D {
    pub xx: i64,
    pub xy: i64,
    pub xt: i64,
    pub yx: i64,
    pub yy: i64,
    pub yt: i64,
}

/// Every entry within the saturation range: what all constructors produce.
pub open spec fn wf2(t: Transform2D) -> bool {
    &&& -(ENTRY_LIMIT as int) <= t.xx as int <= ENTRY_LIMIT as int
    &&& -(ENTRY_LIMIT as int) <= t.xy as int <= ENTRY_LIMIT as int
    &&& -(ENTRY_LIMIT as int) <= t.xt as int <= ENTRY_LIMIT as int
    &&& -(ENTRY_LIMIT as int) <= t.yx as int <= ENTRY_LIMIT as int
    &&& -(ENTRY_LIMIT as int) <= t.yy as int <= ENTRY_LIMIT as int
    &&& -(ENTRY_LIMIT as int) <= t.yt as int <= ENTRY_LIMIT as int
}

/// A point whose coordinates are within the saturation range.
pub open spec fn wf_point2(p: Point2D) -> bool {
    &&& -(ENTRY_LIMIT as int) <= p.x as int <= ENTRY_LIMIT as int
    &&& -(ENTRY_LIMIT as int) <= p.y as int <= ENTRY_LIMIT as int
}

/// The exact-model matrix a planar transform stands for.
pub open spec fn pm2_of(t: Transform2D) -> ProjMat2 {
    ProjMat2 {
        xx: t.xx as int, xy: t.xy as int, xt: t.xt as int,
        yx: t.yx as int, yy: t.yy as int, yt: t.yt as int,
        w: SCALE as int,
    }
}

/// Each model entry rounded once onto the grid and clamped.
pub open spec fn round_pm2(m: ProjMat2) -> Transform2D {
    Transform2D {
        xx: ent(rdiv(m.xx, SCALE as int)),
        xy: ent(rdiv(m.xy, SCALE as int)),
        xt: ent(rdiv(m.xt, SCALE as int)),
        yx: ent(rdiv(m.yx, SCALE as int)),
        yy: ent(rdiv(m.yy, SCALE as int)),
        yt: ent(rdiv(m.yt, SCALE as int)),
    }
}

/// What `compose` returns: the exact product, rounded once per entry.
pub open spec fn compose2_t(a: Transform2D, b: Transform2D) -> Transform2D {
    round_pm2(mul_pm2(pm2_of(a), pm2_of(b)))
}

/// The planar identity transform.
pub open spec fn ident2_t() -> Transform2D {
    Transform2D { xx: SCALE, xy: 0i64, xt: 0i64, yx: 0i64, yy: SCALE, yt: 0i64 }
}

/// Planar rotation by `a` microradians (counter-clockwise).
pub open spec fn rot2_t(a: i64) -> Transform2D {
    Transform2D {
        xx: ent(cos_fp(a as int)), xy: ent(-sin_fp(a as int)), xt: 0i64,
        yx: ent(sin_fp(a as int)), yy: ent(cos_fp(a as int)), yt: 0i64,
    }
}

/// Pure planar translation by `(x, y)`.
pub open spec fn trans2_t(x: i64, y: i64) -> Transform2D {
    Transform2D {
        xx: SCALE, xy: 0i64, xt: ent(x as int),
        yx: 0i64, yy: SCALE, yt: ent(y as int),
    }
}

/// What `transform_point` returns: one rounded affine dot per coordinate.
pub open spec fn apply2_t(t: Transform2D, p: Point2D) -> Point2D {
    Point2D {
        x: ent(rdiv(t.xx * p.x + t.xy * p.y + t.xt * SCALE, SCALE as int)),
        y: ent(rdiv(t.yx * p.x + t.yy * p.y + t.yt * SCALE, SCALE as int)),
    }
}

/// One entry of a planar composition or application.
fn affine_dot2(a0: i64, a1: i64, at: i64, b0: i64, b1: i64) -> (r: i64)
    requires
        -(ENTRY_LIMIT as int) <= a0 as int <= ENTRY_LIMIT as int,
        -(ENTRY_LIMIT as int) <= a1 as int <= ENTRY_LIMIT as int,
        -(ENTRY_LIMIT as int) <= at as int <= ENTRY_LIMIT as int,
    ensures
        r == ent(rdiv(a0 * b0 + a1 * b1 + at * SCALE, SCALE as int)),
{
    proof {
        lemma_mul_abs_bound(a0 as int, b0 as int, ENTRY_LIMIT as int,
            9_223_372_036_854_775_808);
        lemma_mul_abs_bound(a1 as int, b1 as int, ENTRY_LIMIT as int,
            9_223_372_036_854_775_808);
        lemma_mul_abs_bound(at as int, SCALE as int, ENTRY_LIMIT as int, SCALE as int);
    }
    let s: i128 = (a0 as i128) * (b0 as i128) + (a1 as i128) * (b1 as i128)
        + (at as i128) * (SCALE as i128);
    sat_e(rdiv_e(s, 1_000_000))
}

impl Transform2D {
    /// The transform that maps every point to itself.
    pub fn identity() -> (r: Self)
        ensures
            r == ident2_t(),
            wf2(r),
    {
        Transform2D { xx: SCALE, xy: 0, xt: 0, yx: 0, yy: SCALE, yt: 0 }
    }

    /// Pure planar rotation by `angle` microradians.
    pub fn rotation(angle: i64) -> (r: Self)
        ensures
            r == rot2_t(angle),
            wf2(r),
    {
        let c: i64 = cos_scaled(angle);
        let s: i64 = sin_scaled(angle);
        proof {
            lemma_ent_range(cos_fp(angle as int));
            lemma_ent_range(-sin_fp(angle as int));
            lemma_ent_range(sin_fp(angle as int));
        }
        Transform2D { xx: c, xy: -s, xt: 0, yx: s, yy: c, yt: 0 }
    }

    /// Pure planar translation by the vector `(x, y)`.
    pub fn translation(x: i64, y: i64) -> (r: Self)
        ensures
            r == trans2_t(x, y),
            wf2(r),
    {
        let cx: i64 = clamp_entry(x);
        let cy: i64 = clamp_entry(y);
        proof {
            lemma_ent_range(x as int);
            lemma_ent_range(y as int);
        }
        Transform2D { xx: SCALE, xy: 0, xt: cx, yx: 0, yy: SCALE, yt: cy }
    }

    /// The transform equivalent to applying `other` first, then `self`.
    pub fn compose(&self, other: &Transform2D) -> (r: Self)
        requires
            wf2(*self),
            wf2(*other),
        ensures
            r == compose2_t(*self, *other),
            wf2(r),
    {
        let r = Transform2D {
            xx: affine_dot2(self.xx, self.xy, 0, other.xx, other.yx),
            xy: affine_dot2(self.xx, self.xy, 0, other.xy, other.yy),
            xt: affine_dot2(self.xx, self.xy, self.xt, other.xt, other.yt),
            yx: affine_dot2(self.yx, self.yy, 0, other.xx, other.yx),
            yy: affine_dot2(self.yx, self.yy, 0, other.xy, other.yy),
            yt: affine_dot2(self.yx, self.yy, self.yt, other.xt, other.yt),
        };
        proof {
            lemma_round_pm2_wf(mul_pm2(pm2_of(*self), pm2_of(*other)));
        }
        r
    }

    /// The image of `point` under the transform.
    pub fn transform_point(&self, point: &Point2D) -> (r: Point2D)
        requires
            wf2(*self),
        ensures
            r == apply2_t(*self, *point),
            wf_point2(r),
    {
        let r = Point2D {
            x: affine_dot2(self.xx, self.xy, self.xt, point.x, point.y),
            y: affine_dot2(self.yx, self.yy, self.yt, point.x, point.y),
        };
        proof {
            lemma_ent_range(rdiv(
                self.xx * point.x + self.xy * point.y + self.xt * SCALE, SCALE as int));
            lemma_ent_range(rdiv(
                self.yx * point.x + self.yy * point.y + self.yt * SCALE, SCALE as int));
        }
        r
    }
}

/// Rounding a planar model matrix always yields clamped entries.
pub proof fn lemma_round_pm2_wf(m: ProjMat2)
    ensures
        wf2(round_pm2(m)),
{
    lemma_ent_range(rdiv(m.xx, SCALE as int));
    lemma_ent_range(rdiv(m.xy, SCALE as int));
    lemma_ent_range(rdiv(m.xt, SCALE as int));
    lemma_ent_range(rdiv(m.yx, SCALE as int));
    lemma_ent_range(rdiv(m.yy, SCALE as int));
    lemma_ent_range(rdiv(m.yt, SCALE as int));
}

/// In the exact model, a planar rotation is exactly the rotation matrix of
/// its grid cosine and sine: the clamp in its entries never engages.
pub proof fn lemma_rot2_model(a: i64)
    ensures
        pm2_of(rot2_t(a)) == rot_pm2(cos_fp(a as int), sin_fp(a as int)),
{
    lemma_trig_bounds(a as int);
    lemma_ent_range(cos_fp(a as int));
    lemma_ent_range(-sin_fp(a as int));
    lemma_ent_range(sin_fp(a as int));
}

/// Rounding a planar model matrix onto the grid moves each entry by at most
/// half a grid step, wherever the entry stays in the representable range;
/// `compose` is the exact product (associative by `lemma_mul_pm2_assoc`)
/// rounded this way.
pub proof fn lemma_round_pm2_rounding(m: ProjMat2)
    ensures
        in_grid(m.xx) ==> half_step(round_pm2(m).xx as int, m.xx),
        in_grid(m.xy) ==> half_step(round_pm2(m).xy as int, m.xy),
        in_grid(m.xt) ==> half_step(round_pm2(m).xt as int, m.xt),
        in_grid(m.yx) ==> half_step(round_pm2(m).yx as int, m.yx),
        in_grid(m.yy) ==> half_step(round_pm2(m).yy as int, m.yy),
        in_grid(m.yt) ==> half_step(round_pm2(m).yt as int, m.yt),
{
    lemma_grid_rounding(m.xx);
    lemma_grid_rounding(m.xy);
    lemma_grid_rounding(m.xt);
    lemma_grid_rounding(m.yx);
    lemma_grid_rounding(m.yy);
    lemma_grid_rounding(m.yt);
}

/// Composing with the planar identity, on either side, is exact.
pub proof fn lemma_compose_identity_2d(t: Transform2D)
    requires
        wf2(t),
    ensures
        compose2_t(t, ident2_t()) == t,
        compose2_t(ident2_t(), t) == t,
{
    broadcast use lemma_mul_is_commutative;

    lemma_rdiv_exact(t.xx as int, SCALE as int);
    lemma_rdiv_exact(t.xy as int, SCALE as int);
    lemma_rdiv_exact(t.xt as int, SCALE as int);
    lemma_rdiv_exact(t.yx as int, SCALE as int);
    lemma_rdiv_exact(t.yy as int, SCALE as int);
    lemma_rdiv_exact(t.yt as int, SCALE as int);
    lemma_ent_range(t.xx as int);
    lemma_ent_range(t.xy as int);
    lemma_ent_range(t.xt as int);
    lemma_ent_range(t.yx as int);
    lemma_ent_range(t.yy as int);
    lemma_ent_range(t.yt as int);
}

/// The planar identity transform leaves every clamped point unchanged.
pub proof fn lemma_identity_point_2d(p: Point2D)
    requires
        wf_point2(p),
    ensures
        apply2_t(ident2_t(), p) == p,
{
    broadcast use lemma_mul_is_commutative;

    lemma_rdiv_exact(p.x as int, SCALE as int);
    lemma_rdiv_exact(p.y as int, SCALE as int);
    lemma_ent_range(p.x as int);
    lemma_ent_range(p.y as int);
}

} // verus!
