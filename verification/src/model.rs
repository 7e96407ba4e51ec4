//! The exact-arithmetic model of homogeneous transforms.
//!
//! A `ProjMat` is a 4x4 homogeneous matrix over the unbounded integers whose
//! bottom row is `(0, 0, 0, w)`; the scalar `w` plays the role of `1` on the
//! fixed-point grid.  The executable transforms of this crate are exactly
//! such matrices with `w == SCALE`, composed by multiplying in the model and
//! then rounding each entry once back onto the grid.  The algebraic laws that
//! rounding can only approximate — associativity of composition and
//! cancellation of a rotation with its inverse — hold exactly here.

use vstd::prelude::*;
use vstd::arithmetic::mul::*;
use crate::fixed::SCALE;

verus! {

/// A homogeneous matrix over the integers with fixed bottom row `(0,0,0,w)`.
pub ghost struct ProjMat {
    pub xx: int,
    pub xy: int,
    pub xz: int,
    pub xt: int,
    pub yx: int,
    pub yy: int,
    pub yz: int,
    pub yt: int,
    pub zx: int,
    pub zy: int,
    pub zz: int,
    pub zt: int,
    pub w: int,
}

/// Exact matrix product of two homogeneous matrices.
pub open spec fn mul_pm(a: ProjMat, b: ProjMat) -> ProjMat {
    ProjMat {
        xx: a.xx * b.xx + a.xy * b.yx + a.xz * b.zx,
        xy: a.xx * b.xy + a.xy * b.yy + a.xz * b.zy,
        xz: a.xx * b.xz + a.xy * b.yz + a.xz * b.zz,
        xt: a.xx * b.xt + a.xy * b.yt + a.xz * b.zt + a.xt * b.w,
        yx: a.yx * b.xx + a.yy * b.yx + a.yz * b.zx,
        yy: a.yx * b.xy + a.yy * b.yy + a.yz * b.zy,
        yz: a.yx * b.xz + a.yy * b.yz + a.yz * b.zz,
        yt: a.yx * b.xt + a.yy * b.yt + a.yz * b.zt + a.yt * b.w,
        zx: a.zx * b.xx + a.zy * b.yx + a.zz * b.zx,
        zy: a.zx * b.xy + a.zy * b.yy + a.zz * b.zy,
        zz: a.zx * b.xz + a.zy * b.yz + a.zz * b.zz,
        zt: a.zx * b.xt + a.zy * b.yt + a.zz * b.zt + a.zt * b.w,
        w: a.w * b.w,
    }
}

/// The identity matrix at homogeneous scale `w`.
pub open spec fn ident_pm(w: int) -> ProjMat {
    ProjMat {
        xx: w, xy: 0, xz: 0, xt: 0,
        yx: 0, yy: w, yz: 0, yt: 0,
        zx: 0, zy: 0, zz: w, zt: 0,
        w: w,
    }
}

/// Every entry multiplied by `k`: the same transform at a larger scale.
pub open spec fn scale_pm(k: int, m: ProjMat) -> ProjMat {
    ProjMat {
        xx: k * m.xx, xy: k * m.xy, xz: k * m.xz, xt: k * m.xt,
        yx: k * m.yx, yy: k * m.yy, yz: k * m.yz, yt: k * m.yt,
        zx: k * m.zx, zy: k * m.zy, zz: k * m.zz, zt: k * m.zt,
        w: k * m.w,
    }
}

/// A rotation about the Z axis with cosine `c` and sine `s` on the grid.
pub open spec fn rotz_pm(c: int, s: int) -> ProjMat {
    ProjMat {
        xx: c, xy: -s, xz: 0, xt: 0,
        yx: s, yy: c, yz: 0, yt: 0,
        zx: 0, zy: 0, zz: SCALE as int, zt: 0,
        w: SCALE as int,
    }
}

proof fn lemma_dot3_assoc(
    a1: int, a2: int, a3: int,
    b11: int, b12: int, b13: int,
    b21: int, b22: int, b23: int,
    b31: int, b32: int, b33: int,
    c1: int, c2: int, c3: int,
)
    ensures
        (a1 * b11 + a2 * b21 + a3 * b31) * c1
            + (a1 * b12 + a2 * b22 + a3 * b32) * c2
            + (a1 * b13 + a2 * b23 + a3 * b33) * c3
            == a1 * (b11 * c1 + b12 * c2 + b13 * c3)
                + a2 * (b21 * c1 + b22 * c2 + b23 * c3)
                + a3 * (b31 * c1 + b32 * c2 + b33 * c3),
{
    lemma_dot3_scale(a1, a2, a3, b11, b21, b31, c1);
    lemma_dot3_scale(a1, a2, a3, b12, b22, b32, c2);
    lemma_dot3_scale(a1, a2, a3, b13, b23, b33, c3);
    broadcast use lemma_mul_is_distributive_add;

}

proof fn lemma_dot3_scale(a1: int, a2: int, a3: int, b1: int, b2: int, b3: int, k: int)
    ensures
        (a1 * b1 + a2 * b2 + a3 * b3) * k == a1 * (b1 * k) + a2 * (b2 * k) + a3 * (b3 * k),
{
    broadcast use group_mul_is_distributive, lemma_mul_is_associative;

}

/// A planar homogeneous matrix over the integers with bottom row `(0,0,w)`.
pub ghost struct ProjMat2 {
    pub xx: int,
    pub xy: int,
    pub xt: int,
    pub yx: int,
    pub yy: int,
    pub yt: int,
    pub w: int,
}

/// Exact matrix product of two planar homogeneous matrices.
pub open spec fn mul_pm2(a: ProjMat2, b: ProjMat2) -> ProjMat2 {
    ProjMat2 {
        xx: a.xx * b.xx + a.xy * b.yx,
        xy: a.xx * b.xy + a.xy * b.yy,
        xt: a.xx * b.xt + a.xy * b.yt + a.xt * b.w,
        yx: a.yx * b.xx + a.yy * b.yx,
        yy: a.yx * b.xy + a.yy * b.yy,
        yt: a.yx * b.xt + a.yy * b.yt + a.yt * b.w,
        w: a.w * b.w,
    }
}

/// The planar identity matrix at homogeneous scale `w`.
pub open spec fn ident_pm2(w: int) -> ProjMat2 {
    ProjMat2 { xx: w, xy: 0, xt: 0, yx: 0, yy: w, yt: 0, w: w }
}

/// Every entry multiplied by `k`.
pub open spec fn scale_pm2(k: int, m: ProjMat2) -> ProjMat2 {
    ProjMat2 {
        xx: k * m.xx, xy: k * m.xy, xt: k * m.xt,
        yx: k * m.yx, yy: k * m.yy, yt: k * m.yt,
        w: k * m.w,
    }
}

/// The planar rotation with cosine `c` and sine `s` on the grid.
pub open spec fn rot_pm2(c: int, s: int) -> ProjMat2 {
    ProjMat2 { xx: c, xy: -s, xt: 0, yx: s, yy: c, yt: 0, w: SCALE as int }
}

proof fn lemma_dot2_assoc(
    a1: int, a2: int,
    b11: int, b12: int,
    b21: int, b22: int,
    c1: int, c2: int,
)
    ensures
        (a1 * b11 + a2 * b21) * c1 + (a1 * b12 + a2 * b22) * c2
            == a1 * (b11 * c1 + b12 * c2) + a2 * (b21 * c1 + b22 * c2),
{
    broadcast use group_mul_is_distributive, lemma_mul_is_associative;

}

proof fn lemma_dot2_scale(a1: int, a2: int, b1: int, b2: int, k: int)
    ensures
        (a1 * b1 + a2 * b2) * k == a1 * (b1 * k) + a2 * (b2 * k),
{
    broadcast use group_mul_is_distributive, lemma_mul_is_associative;

}

/// Composition of planar homogeneous transforms is associative in exact
/// arithmetic, as in the three-dimensional case.
pub proof fn lemma_mul_pm2_assoc(a: ProjMat2, b: ProjMat2, c: ProjMat2)
    ensures
        mul_pm2(mul_pm2(a, b), c) == mul_pm2(a, mul_pm2(b, c)),
{
    broadcast use group_mul_is_distributive, lemma_mul_is_associative;

    lemma_dot2_assoc(a.xx, a.xy, b.xx, b.xy, b.yx, b.yy, c.xx, c.yx);
    lemma_dot2_assoc(a.xx, a.xy, b.xx, b.xy, b.yx, b.yy, c.xy, c.yy);
    lemma_dot2_assoc(a.xx, a.xy, b.xx, b.xy, b.yx, b.yy, c.xt, c.yt);
    lemma_dot2_assoc(a.yx, a.yy, b.xx, b.xy, b.yx, b.yy, c.xx, c.yx);
    lemma_dot2_assoc(a.yx, a.yy, b.xx, b.xy, b.yx, b.yy, c.xy, c.yy);
    lemma_dot2_assoc(a.yx, a.yy, b.xx, b.xy, b.yx, b.yy, c.xt, c.yt);
    lemma_dot2_scale(a.xx, a.xy, b.xt, b.yt, c.w);
    lemma_dot2_scale(a.yx, a.yy, b.xt, b.yt, c.w);
    lemma_mul_is_associative(a.xt, b.w, c.w);
    lemma_mul_is_associative(a.yt, b.w, c.w);
    lemma_mul_is_associative(a.w, b.w, c.w);
}

/// A planar rotation composed with the rotation of the opposite angle is the
/// identity, exactly, for any cosine/sine pair on the unit circle of the
/// grid; the product carries the homogeneous scale `SCALE * SCALE`.
pub proof fn lemma_rot2_inverse(c: int, s: int)
    requires
        c * c + s * s == (SCALE as int) * (SCALE as int),
    ensures
        mul_pm2(rot_pm2(c, s), rot_pm2(c, -s)) == scale_pm2(SCALE as int, ident_pm2(SCALE as int)),
{
    assert((-s) * (-s) == s * s) by (nonlinear_arith);
    assert((-s) * c == -(s * c)) by (nonlinear_arith);
    assert(c * s == s * c) by (nonlinear_arith);
    assert(c * (-s) == -(c * s)) by (nonlinear_arith);
    assert(s * (-s) == -(s * s)) by (nonlinear_arith);
}

/// Composition of homogeneous transforms is associative in exact arithmetic.
///
/// The executable `compose` rounds each entry of this exact product once onto
/// the fixed-point grid, so for it the law holds up to that rounding — the
/// analogue of floating-point tolerance.
pub proof fn lemma_mul_pm_assoc(a: ProjMat, b: ProjMat, c: ProjMat)
    ensures
        mul_pm(mul_pm(a, b), c) == mul_pm(a, mul_pm(b, c)),
{
    broadcast use group_mul_is_distributive, lemma_mul_is_associative;

    lemma_dot3_assoc(a.xx, a.xy, a.xz, b.xx, b.xy, b.xz, b.yx, b.yy, b.yz, b.zx, b.zy, b.zz,
        c.xx, c.yx, c.zx);
    lemma_dot3_assoc(a.xx, a.xy, a.xz, b.xx, b.xy, b.xz, b.yx, b.yy, b.yz, b.zx, b.zy, b.zz,
        c.xy, c.yy, c.zy);
    lemma_dot3_assoc(a.xx, a.xy, a.xz, b.xx, b.xy, b.xz, b.yx, b.yy, b.yz, b.zx, b.zy, b.zz,
        c.xz, c.yz, c.zz);
    lemma_dot3_assoc(a.yx, a.yy, a.yz, b.xx, b.xy, b.xz, b.yx, b.yy, b.yz, b.zx, b.zy, b.zz,
        c.xx, c.yx, c.zx);
    lemma_dot3_assoc(a.yx, a.yy, a.yz, b.xx, b.xy, b.xz, b.yx, b.yy, b.yz, b.zx, b.zy, b.zz,
        c.xy, c.yy, c.zy);
    lemma_dot3_assoc(a.yx, a.yy, a.yz, b.xx, b.xy, b.xz, b.yx, b.yy, b.yz, b.zx, b.zy, b.zz,
        c.xz, c.yz, c.zz);
    lemma_dot3_assoc(a.zx, a.zy, a.zz, b.xx, b.xy, b.xz, b.yx, b.yy, b.yz, b.zx, b.zy, b.zz,
        c.xx, c.yx, c.zx);
    lemma_dot3_assoc(a.zx, a.zy, a.zz, b.xx, b.xy, b.xz, b.yx, b.yy, b.yz, b.zx, b.zy, b.zz,
        c.xy, c.yy, c.zy);
    lemma_dot3_assoc(a.zx, a.zy, a.zz, b.xx, b.xy, b.xz, b.yx, b.yy, b.yz, b.zx, b.zy, b.zz,
        c.xz, c.yz, c.zz);
    lemma_dot3_assoc(a.xx, a.xy, a.xz, b.xx, b.xy, b.xz, b.yx, b.yy, b.yz, b.zx, b.zy, b.zz,
        c.xt, c.yt, c.zt);
    lemma_dot3_assoc(a.yx, a.yy, a.yz, b.xx, b.xy, b.xz, b.yx, b.yy, b.yz, b.zx, b.zy, b.zz,
        c.xt, c.yt, c.zt);
    lemma_dot3_assoc(a.zx, a.zy, a.zz, b.xx, b.xy, b.xz, b.yx, b.yy, b.yz, b.zx, b.zy, b.zz,
        c.xt, c.yt, c.zt);
    lemma_dot3_scale(a.xx, a.xy, a.xz, b.xt, b.yt, b.zt, c.w);
    lemma_dot3_scale(a.yx, a.yy, a.yz, b.xt, b.yt, b.zt, c.w);
    lemma_dot3_scale(a.zx, a.zy, a.zz, b.xt, b.yt, b.zt, c.w);
    lemma_mul_is_associative(a.xt, b.w, c.w);
    lemma_mul_is_associative(a.yt, b.w, c.w);
    lemma_mul_is_associative(a.zt, b.w, c.w);
    lemma_mul_is_associative(a.w, b.w, c.w);
}

/// A Z rotation composed with the Z rotation of the opposite angle is the
/// identity, exactly, for any cosine/sine pair on the unit circle of the
/// grid; the product carries the homogeneous scale `SCALE * SCALE`.
pub proof fn lemma_rotz_inverse(c: int, s: int)
    requires
        c * c + s * s == (SCALE as int) * (SCALE as int),
    ensures
        mul_pm(rotz_pm(c, s), rotz_pm(c, -s)) == scale_pm(SCALE as int, ident_pm(SCALE as int)),
{
    assert((-s) * (-s) == s * s) by (nonlinear_arith);
    assert((-s) * c == -(s * c)) by (nonlinear_arith);
    assert(c * s == s * c) by (nonlinear_arith);
    assert(c * (-s) == -(c * s)) by (nonlinear_arith);
    assert(s * (-s) == -(s * s)) by (nonlinear_arith);
}

/// Rotating a point by a rotation on the unit circle of the grid and then by
/// the opposite rotation restores the point, exactly, at homogeneous scale
/// `SCALE * SCALE`.
pub proof fn lemma_rotation_roundtrip(c: int, s: int, x: int, y: int)
    requires
        c * c + s * s == (SCALE as int) * (SCALE as int),
    ensures
        c * (c * x - s * y) + s * (s * x + c * y) == (SCALE as int) * (SCALE as int) * x,
        c * (s * x + c * y) - s * (c * x - s * y) == (SCALE as int) * (SCALE as int) * y,
{
    assert(c * (c * x - s * y) + s * (s * x + c * y) == (c * c + s * s) * x)
        by (nonlinear_arith);
    assert(c * (s * x + c * y) - s * (c * x - s * y) == (c * c + s * s) * y)
        by (nonlinear_arith);
    assert((c * c + s * s) * x == (SCALE as int) * (SCALE as int) * x);
    assert((c * c + s * s) * y == (SCALE as int) * (SCALE as int) * y);
}

} // verus!
