//! Points and rigid homogeneous transforms in three dimensions.
//!
//! A `Transform3D` is a 4x4 homogeneous matrix on the fixed-point grid: the
//! twelve stored entries are scaled by `SCALE` and the bottom row is the
//! implicit `(0, 0, 0, SCALE)`.  Composition and point application multiply
//! in exact 128-bit arithmetic and round each entry once back onto the grid,
//! saturating at `ENTRY_LIMIT`; the contracts state those rounded values
//! exactly, through the exact model of `crate::model`.

use vstd::prelude::*;
use crate::fixed::{SCALE, ENTRY_LIMIT, rdiv, ent, lemma_ent_range, lemma_rdiv_exact,
    lemma_grid_rounding, lemma_mul_abs_bound, rdiv_e, sat_e, in_grid, half_step};
use crate::model::{ProjMat, mul_pm, rotz_pm};
use crate::trig::{sin_fp, cos_fp, sin_scaled, cos_scaled, lemma_trig_neg, lemma_trig_bounds};
use vstd::arithmetic::mul::lemma_mul_is_commutative;

verus! {

/// A point in 3-space; coordinates are in millionths of a unit.
#[derive(Clone, Copy, PartialEq, Eq, Structural, Debug)]
pub struct Point3D {
    pub x: i64,
    pub y: i64,
    pub z: i64,
}

impl Point3D {
    /// A point with the given fixed-point coordinates.
    pub fn new(x: i64, y: i64, z: i64) -> (r: Self)
        ensures
            r == (Point3D { x, y, z }),
    {
        Point3D { x, y, z }
    }

    /// The origin.
    pub fn origin() -> (r: Self)
        ensures
            r == (Point3D { x: 0i64, y: 0i64, z: 0i64 }),
    {
        Point3D { x: 0, y: 0, z: 0 }
    }
}

/// A rigid homogeneous transform.  Row-major rotation block and translation
/// column; the bottom row `(0, 0, 0, SCALE)` is implicit.
#[derive(Clone, Copy, PartialEq, Eq, Structural, Debug)]
pub struct Transform3D {
    pub xx: i64,
    pub xy: i64,
    pub xz: i64,
    pub xt: i64,
    pub yx: i64,
    pub yy: i64,
    pub yz: i64,
    pub yt: i64,
    pub zx: i64,
    pub zy: i64,
    pub zz: i64,
    pub zt: i64,
}

/// Every entry within the saturation range: what all constructors produce.
pub open spec fn wf3(t: Transform3D) -> bool {
    &&& -(ENTRY_LIMIT as int) <= t.xx as int <= ENTRY_LIMIT as int
    &&& -(ENTRY_LIMIT as int) <= t.xy as int <= ENTRY_LIMIT as int
    &&& -(ENTRY_LIMIT as int) <= t.xz as int <= ENTRY_LIMIT as int
    &&& -(ENTRY_LIMIT as int) <= t.xt as int <= ENTRY_LIMIT as int
    &&& -(ENTRY_LIMIT as int) <= t.yx as int <= ENTRY_LIMIT as int
    &&& -(ENTRY_LIMIT as int) <= t.yy as int <= ENTRY_LIMIT as int
    &&& -(ENTRY_LIMIT as int) <= t.yz as int <= ENTRY_LIMIT as int
    &&& -(ENTRY_LIMIT as int) <= t.yt as int <= ENTRY_LIMIT as int
    &&& -(ENTRY_LIMIT as int) <= t.zx as int <= ENTRY_LIMIT as int
    &&& -(ENTRY_LIMIT as int) <= t.zy as int <= ENTRY_LIMIT as int
    &&& -(ENTRY_LIMIT as int) <= t.zz as int <= ENTRY_LIMIT as int
    &&& -(ENTRY_LIMIT as int) <= t.zt as int <= ENTRY_LIMIT as int
}

/// A point whose coordinates are within the saturation range.
pub open spec fn wf_point3(p: Point3D) -> bool {
    &&& -(ENTRY_LIMIT as int) <= p.x as int <= ENTRY_LIMIT as int
    &&& -(ENTRY_LIMIT as int) <= p.y as int <= ENTRY_LIMIT as int
    &&& -(ENTRY_LIMIT as int) <= p.z as int <= ENTRY_LIMIT as int
}

/// The exact-model matrix a transform stands for.
pub open spec fn pm_of(t: Transform3D) -> ProjMat {
    ProjMat {
        xx: t.xx as int, xy: t.xy as int, xz: t.xz as int, xt: t.xt as int,
        yx: t.yx as int, yy: t.yy as int, yz: t.yz as int, yt: t.yt as int,
        zx: t.zx as int, zy: t.zy as int, zz: t.zz as int, zt: t.zt as int,
        w: SCALE as int,
    }
}

/// Each model entry rounded once onto the grid and clamped.
pub open spec fn round_pm(m: ProjMat) -> Transform3D {
    Transform3D {
        xx: ent(rdiv(m.xx, SCALE as int)),
        xy: ent(rdiv(m.xy, SCALE as int)),
        xz: ent(rdiv(m.xz, SCALE as int)),
        xt: ent(rdiv(m.xt, SCALE as int)),
        yx: ent(rdiv(m.yx, SCALE as int)),
        yy: ent(rdiv(m.yy, SCALE as int)),
        yz: ent(rdiv(m.yz, SCALE as int)),
        yt: ent(rdiv(m.yt, SCALE as int)),
        zx: ent(rdiv(m.zx, SCALE as int)),
        zy: ent(rdiv(m.zy, SCALE as int)),
        zz: ent(rdiv(m.zz, SCALE as int)),
        zt: ent(rdiv(m.zt, SCALE as int)),
    }
}

/// What `compose` returns: the exact product, rounded once per entry.
pub open spec fn compose_t(a: Transform3D, b: Transform3D) -> Transform3D {
    round_pm(mul_pm(pm_of(a), pm_of(b)))
}

/// The identity transform.
pub open spec fn ident_t() -> Transform3D {
    Transform3D {
        xx: SCALE, xy: 0i64, xz: 0i64, xt: 0i64,
        yx: 0i64, yy: SCALE, yz: 0i64, yt: 0i64,
        zx: 0i64, zy: 0i64, zz: SCALE, zt: 0i64,
    }
}

/// Rotation about the X axis by `a` microradians (right-hand rule).
pub open spec fn rx_t(a: i64) -> Transform3D {
    Transform3D {
        xx: SCALE, xy: 0i64, xz: 0i64, xt: 0i64,
        yx: 0i64, yy: ent(cos_fp(a as int)), yz: ent(-sin_fp(a as int)), yt: 0i64,
        zx: 0i64, zy: ent(sin_fp(a as int)), zz: ent(cos_fp(a as int)), zt: 0i64,
    }
}

/// Rotation about the Y axis by `a` microradians.
pub open spec fn ry_t(a: i64) -> Transform3D {
    Transform3D {
        xx: ent(cos_fp(a as int)), xy: 0i64, xz: ent(sin_fp(a as int)), xt: 0i64,
        yx: 0i64, yy: SCALE, yz: 0i64, yt: 0i64,
        zx: ent(-sin_fp(a as int)), zy: 0i64, zz: ent(cos_fp(a as int)), zt: 0i64,
    }
}

/// Rotation about the Z axis by `a` microradians.
pub open spec fn rz_t(a: i64) -> Transform3D {
    Transform3D {
        xx: ent(cos_fp(a as int)), xy: ent(-sin_fp(a as int)), xz: 0i64, xt: 0i64,
        yx: ent(sin_fp(a as int)), yy: ent(cos_fp(a as int)), yz: 0i64, yt: 0i64,
        zx: 0i64, zy: 0i64, zz: SCALE, zt: 0i64,
    }
}

/// Pure translation by `(x, y, z)`.
pub open spec fn trans_t(x: i64, y: i64, z: i64) -> Transform3D {
    Transform3D {
        xx: SCALE, xy: 0i64, xz: 0i64, xt: ent(x as int),
        yx: 0i64, yy: SCALE, yz: 0i64, yt: ent(y as int),
        zx: 0i64, zy: 0i64, zz: SCALE, zt: ent(z as int),
    }
}

/// What `transform_point` returns: one rounded affine dot per coordinate.
pub open spec fn apply_t(t: Transform3D, p: Point3D) -> Point3D {
    Point3D {
        x: ent(rdiv(t.xx * p.x + t.xy * p.y + t.xz * p.z + t.xt * SCALE, SCALE as int)),
        y: ent(rdiv(t.yx * p.x + t.yy * p.y + t.yz * p.z + t.yt * SCALE, SCALE as int)),
        z: ent(rdiv(t.zx * p.x + t.zy * p.y + t.zz * p.z + t.zt * SCALE, SCALE as int)),
    }
}

/// One entry of a composition or application: dot a clamped row with an
/// arbitrary column, add the translation term, rescale and clamp.
fn affine_dot(a0: i64, a1: i64, a2: i64, at: i64, b0: i64, b1: i64, b2: i64) -> (r: i64)
    requires
        -(ENTRY_LIMIT as int) <= a0 as int <= ENTRY_LIMIT as int,
        -(ENTRY_LIMIT as int) <= a1 as int <= ENTRY_LIMIT as int,
        -(ENTRY_LIMIT as int) <= a2 as int <= ENTRY_LIMIT as int,
        -(ENTRY_LIMIT as int) <= at as int <= ENTRY_LIMIT as int,
    ensures
        r == ent(rdiv(a0 * b0 + a1 * b1 + a2 * b2 + at * SCALE, SCALE as int)),
{
    proof {
        lemma_mul_abs_bound(a0 as int, b0 as int, ENTRY_LIMIT as int,
            9_223_372_036_854_775_808);
        lemma_mul_abs_bound(a1 as int, b1 as int, ENTRY_LIMIT as int,
            9_223_372_036_854_775_808);
        lemma_mul_abs_bound(a2 as int, b2 as int, ENTRY_LIMIT as int,
            9_223_372_036_854_775_808);
        lemma_mul_abs_bound(at as int, SCALE as int, ENTRY_LIMIT as int, SCALE as int);
    }
    let s: i128 = (a0 as i128) * (b0 as i128) + (a1 as i128) * (b1 as i128)
        + (a2 as i128) * (b2 as i128) + (at as i128) * (SCALE as i128);
    sat_e(rdiv_e(s, 1_000_000))
}

impl Transform3D {
    /// The transform that maps every point to itself.
    pub fn identity() -> (r: Self)
        ensures
            r == ident_t(),
            wf3(r),
    {
        Transform3D {
            xx: SCALE, xy: 0, xz: 0, xt: 0,
            yx: 0, yy: SCALE, yz: 0, yt: 0,
            zx: 0, zy: 0, zz: SCALE, zt: 0,
        }
    }

    /// Pure rotation about the X axis by `angle` microradians.
    pub fn rotation_x(angle: i64) -> (r: Self)
        ensures
            r == rx_t(angle),
            wf3(r),
    {
        let c: i64 = cos_scaled(angle);
        let s: i64 = sin_scaled(angle);
        proof {
            lemma_ent_range(cos_fp(angle as int));
            lemma_ent_range(-sin_fp(angle as int));
            lemma_ent_range(sin_fp(angle as int));
        }
        Transform3D {
            xx: SCALE, xy: 0, xz: 0, xt: 0,
            yx: 0, yy: c, yz: -s, yt: 0,
            zx: 0, zy: s, zz: c, zt: 0,
        }
    }

    /// Pure rotation about the Y axis by `angle` microradians.
    pub fn rotation_y(angle: i64) -> (r: Self)
        ensures
            r == ry_t(angle),
            wf3(r),
    {
        let c: i64 = cos_scaled(angle);
        let s: i64 = sin_scaled(angle);
        proof {
            lemma_ent_range(cos_fp(angle as int));
            lemma_ent_range(-sin_fp(angle as int));
            lemma_ent_range(sin_fp(angle as int));
        }
        Transform3D {
            xx: c, xy: 0, xz: s, xt: 0,
            yx: 0, yy: SCALE, yz: 0, yt: 0,
            zx: -s, zy: 0, zz: c, zt: 0,
        }
    }

    /// Pure rotation about the Z axis by `angle` microradians.
    pub fn rotation_z(angle: i64) -> (r: Self)
        ensures
            r == rz_t(angle),
            wf3(r),
    {
        let c: i64 = cos_scaled(angle);
        let s: i64 = sin_scaled(angle);
        proof {
            lemma_ent_range(cos_fp(angle as int));
            lemma_ent_range(-sin_fp(angle as int));
            lemma_ent_range(sin_fp(angle as int));
        }
        Transform3D {
            xx: c, xy: -s, xz: 0, xt: 0,
            yx: s, yy: c, yz: 0, yt: 0,
            zx: 0, zy: 0, zz: SCALE, zt: 0,
        }
    }

    /// Pure translation by the vector `(x, y, z)`.
    pub fn translation(x: i64, y: i64, z: i64) -> (r: Self)
        ensures
            r == trans_t(x, y, z),
            wf3(r),
    {
        let cx: i64 = crate::fixed::clamp_entry(x);
        let cy: i64 = crate::fixed::clamp_entry(y);
        let cz: i64 = crate::fixed::clamp_entry(z);
        proof {
            lemma_ent_range(x as int);
            lemma_ent_range(y as int);
            lemma_ent_range(z as int);
        }
        Transform3D {
            xx: SCALE, xy: 0, xz: 0, xt: cx,
            yx: 0, yy: SCALE, yz: 0, yt: cy,
            zx: 0, zy: 0, zz: SCALE, zt: cz,
        }
    }

    /// The transform equivalent to applying `other` first, then `self`:
    /// the matrix product `self * other`, each entry rounded once.
    pub fn compose(&self, other: &Transform3D) -> (r: Self)
        requires
            wf3(*self),
            wf3(*other),
        ensures
            r == compose_t(*self, *other),
            wf3(r),
    {
        let r = Transform3D {
            xx: affine_dot(self.xx, self.xy, self.xz, 0, other.xx, other.yx, other.zx),
            xy: affine_dot(self.xx, self.xy, self.xz, 0, other.xy, other.yy, other.zy),
            xz: affine_dot(self.xx, self.xy, self.xz, 0, other.xz, other.yz, other.zz),
            xt: affine_dot(self.xx, self.xy, self.xz, self.xt, other.xt, other.yt, other.zt),
            yx: affine_dot(self.yx, self.yy, self.yz, 0, other.xx, other.yx, other.zx),
            yy: affine_dot(self.yx, self.yy, self.yz, 0, other.xy, other.yy, other.zy),
            yz: affine_dot(self.yx, self.yy, self.yz, 0, other.xz, other.yz, other.zz),
            yt: affine_dot(self.yx, self.yy, self.yz, self.yt, other.xt, other.yt, other.zt),
            zx: affine_dot(self.zx, self.zy, self.zz, 0, other.xx, other.yx, other.zx),
            zy: affine_dot(self.zx, self.zy, self.zz, 0, other.xy, other.yy, other.zy),
            zz: affine_dot(self.zx, self.zy, self.zz, 0, other.xz, other.yz, other.zz),
            zt: affine_dot(self.zx, self.zy, self.zz, self.zt, other.xt, other.yt, other.zt),
        };
        proof {
            lemma_round_pm_wf(mul_pm(pm_of(*self), pm_of(*other)));
        }
        r
    }

    /// The image of `point` under the transform: promote to homogeneous
    /// coordinates, multiply, drop the homogeneous coordinate.
    pub fn transform_point(&self, point: &Point3D) -> (r: Point3D)
        requires
            wf3(*self),
        ensures
            r == apply_t(*self, *point),
            wf_point3(r),
    {
        let r = Point3D {
            x: affine_dot(self.xx, self.xy, self.xz, self.xt, point.x, point.y, point.z),
            y: affine_dot(self.yx, self.yy, self.yz, self.yt, point.x, point.y, point.z),
            z: affine_dot(self.zx, self.zy, self.zz, self.zt, point.x, point.y, point.z),
        };
        proof {
            lemma_ent_range(t_apply_x(*self, *point));
            lemma_ent_range(t_apply_y(*self, *point));
            lemma_ent_range(t_apply_z(*self, *point));
        }
        r
    }
}

/// The unrounded x coordinate of an application (proof convenience).
spec fn t_apply_x(t: Transform3D, p: Point3D) -> int {
    rdiv(t.xx * p.x + t.xy * p.y + t.xz * p.z + t.xt * SCALE, SCALE as int)
}

/// The unrounded y coordinate of an application (proof convenience).
spec fn t_apply_y(t: Transform3D, p: Point3D) -> int {
    rdiv(t.yx * p.x + t.yy * p.y + t.yz * p.z + t.yt * SCALE, SCALE as int)
}

/// The unrounded z coordinate of an application (proof convenience).
spec fn t_apply_z(t: Transform3D, p: Point3D) -> int {
    rdiv(t.zx * p.x + t.zy * p.y + t.zz * p.z + t.zt * SCALE, SCALE as int)
}

/// Rounding a model matrix always yields clamped entries.
pub proof fn lemma_round_pm_wf(m: ProjMat)
    ensures
        wf3(round_pm(m)),
{
    lemma_ent_range(rdiv(m.xx, SCALE as int));
    lemma_ent_range(rdiv(m.xy, SCALE as int));
    lemma_ent_range(rdiv(m.xz, SCALE as int));
    lemma_ent_range(rdiv(m.xt, SCALE as int));
    lemma_ent_range(rdiv(m.yx, SCALE as int));
    lemma_ent_range(rdiv(m.yy, SCALE as int));
    lemma_ent_range(rdiv(m.yz, SCALE as int));
    lemma_ent_range(rdiv(m.yt, SCALE as int));
    lemma_ent_range(rdiv(m.zx, SCALE as int));
    lemma_ent_range(rdiv(m.zy, SCALE as int));
    lemma_ent_range(rdiv(m.zz, SCALE as int));
    lemma_ent_range(rdiv(m.zt, SCALE as int));
}

/// Rounding a model matrix onto the grid moves each entry by at most half a
/// grid step, wherever the entry stays in the representable range.  Since
/// `compose_t` is the exact product rounded this way, and the exact product
/// is associative (`lemma_mul_pm_assoc`), the executable composition obeys
/// the algebra of rigid transforms to within half a grid step per entry.
pub proof fn lemma_round_pm_rounding(m: ProjMat)
    ensures
        in_grid(m.xx) ==> half_step(round_pm(m).xx as int, m.xx),
        in_grid(m.xy) ==> half_step(round_pm(m).xy as int, m.xy),
        in_grid(m.xz) ==> half_step(round_pm(m).xz as int, m.xz),
        in_grid(m.xt) ==> half_step(round_pm(m).xt as int, m.xt),
        in_grid(m.yx) ==> half_step(round_pm(m).yx as int, m.yx),
        in_grid(m.yy) ==> half_step(round_pm(m).yy as int, m.yy),
        in_grid(m.yz) ==> half_step(round_pm(m).yz as int, m.yz),
        in_grid(m.yt) ==> half_step(round_pm(m).yt as int, m.yt),
        in_grid(m.zx) ==> half_step(round_pm(m).zx as int, m.zx),
        in_grid(m.zy) ==> half_step(round_pm(m).zy as int, m.zy),
        in_grid(m.zz) ==> half_step(round_pm(m).zz as int, m.zz),
        in_grid(m.zt) ==> half_step(round_pm(m).zt as int, m.zt),
{
    lemma_grid_rounding(m.xx);
    lemma_grid_rounding(m.xy);
    lemma_grid_rounding(m.xz);
    lemma_grid_rounding(m.xt);
    lemma_grid_rounding(m.yx);
    lemma_grid_rounding(m.yy);
    lemma_grid_rounding(m.yz);
    lemma_grid_rounding(m.yt);
    lemma_grid_rounding(m.zx);
    lemma_grid_rounding(m.zy);
    lemma_grid_rounding(m.zz);
    lemma_grid_rounding(m.zt);
}

/// Composing with the identity, on either side, is exact: it returns the
/// other transform unchanged.  Likewise the identity maps any clamped point
/// to itself.
pub proof fn lemma_compose_identity(t: Transform3D)
    requires
        wf3(t),
    ensures
        compose_t(t, ident_t()) == t,
        compose_t(ident_t(), t) == t,
{
    broadcast use lemma_mul_is_commutative;

    lemma_rdiv_exact(t.xx as int, SCALE as int);
    lemma_rdiv_exact(t.xy as int, SCALE as int);
    lemma_rdiv_exact(t.xz as int, SCALE as int);
    lemma_rdiv_exact(t.xt as int, SCALE as int);
    lemma_rdiv_exact(t.yx as int, SCALE as int);
    lemma_rdiv_exact(t.yy as int, SCALE as int);
    lemma_rdiv_exact(t.yz as int, SCALE as int);
    lemma_rdiv_exact(t.yt as int, SCALE as int);
    lemma_rdiv_exact(t.zx as int, SCALE as int);
    lemma_rdiv_exact(t.zy as int, SCALE as int);
    lemma_rdiv_exact(t.zz as int, SCALE as int);
    lemma_rdiv_exact(t.zt as int, SCALE as int);
    lemma_ent_range(t.xx as int);
    lemma_ent_range(t.xy as int);
    lemma_ent_range(t.xz as int);
    lemma_ent_range(t.xt as int);
    lemma_ent_range(t.yx as int);
    lemma_ent_range(t.yy as int);
    lemma_ent_range(t.yz as int);
    lemma_ent_range(t.yt as int);
    lemma_ent_range(t.zx as int);
    lemma_ent_range(t.zy as int);
    lemma_ent_range(t.zz as int);
    lemma_ent_range(t.zt as int);
}

/// The identity transform leaves every clamped point unchanged.
pub proof fn lemma_identity_point(p: Point3D)
    requires
        wf_point3(p),
    ensures
        apply_t(ident_t(), p) == p,
{
    broadcast use lemma_mul_is_commutative;

    lemma_rdiv_exact(p.x as int, SCALE as int);
    lemma_rdiv_exact(p.y as int, SCALE as int);
    lemma_rdiv_exact(p.z as int, SCALE as int);
    lemma_ent_range(p.x as int);
    lemma_ent_range(p.y as int);
    lemma_ent_range(p.z as int);
}

/// In the exact model, a Z rotation is exactly the rotation matrix of its
/// grid cosine and sine: the clamp in its entries never engages.  Together
/// with the model's inverse-rotation law this pins down what composing
/// `rotation_z(a)` with `rotation_z(-a)` computes.
pub proof fn lemma_rz_model(a: i64)
    ensures
        pm_of(rz_t(a)) == rotz_pm(cos_fp(a as int), sin_fp(a as int)),
{
    lemma_trig_bounds(a as int);
    lemma_ent_range(cos_fp(a as int));
    lemma_ent_range(-sin_fp(a as int));
    lemma_ent_range(sin_fp(a as int));
}

/// The Z rotation of the opposite angle is the transpose of the original
/// rotation — its exact inverse rotation on the grid.
pub proof fn lemma_rotation_z_opposite(a: i64, b: i64)
    requires
        a as int + b as int == 0,
    ensures
        rz_t(b).xx == rz_t(a).xx,
        rz_t(b).yy == rz_t(a).yy,
        rz_t(b).xy == rz_t(a).yx,
        rz_t(b).yx == rz_t(a).xy,
        rz_t(b).zz == rz_t(a).zz,
    {
    lemma_trig_neg(a as int);
}

} // verus!
