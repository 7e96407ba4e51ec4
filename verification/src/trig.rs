//! Sine and cosine on the fixed-point grid.
//!
//! Angles are `i64` microradians.  An angle is first reduced modulo one full
//! turn into `(-PI_URAD, PI_URAD]`, then folded into `[0, PI_URAD]` using the
//! symmetries of the two functions, and finally evaluated by a truncated
//! Taylor polynomial whose every step is a rounded fixed-point operation.
//! The contracts state the computed polynomial exactly.

use vstd::prelude::*;
use vstd::arithmetic::div_mod::*;
use vstd::arithmetic::mul::*;
use crate::fixed::{SCALE, rdiv, rdiv_e, lemma_rdiv_bounded, lemma_mul_abs_bound};

verus! {

/// One half turn, in microradians.
pub const PI_URAD: i64 = 3_141_593;

/// One full turn, in microradians (twice `PI_URAD`).
pub const TWO_PI_URAD: i64 = 6_283_186;

/// One quarter turn, in microradians (used only as the fold boundary).
pub const HALF_PI_URAD: i64 = 1_570_796;

/// An angle reduced into `[0, TWO_PI_URAD)`.
pub open spec fn angle_mod(a: int) -> int {
    a % (TWO_PI_URAD as int)
}

/// An angle reduced into `(-PI_URAD, PI_URAD]`.
pub open spec fn fold_angle(a: int) -> int {
    if angle_mod(a) <= PI_URAD {
        angle_mod(a)
    } else {
        angle_mod(a) - TWO_PI_URAD
    }
}

/// The squared argument rescaled onto the grid: `x^2 / SCALE`, rounded.
pub open spec fn poly_y(x: int) -> int {
    rdiv(x * x, SCALE as int)
}

/// Taylor term `x^3 / 3!`, evaluated by rounded fixed-point steps.
pub open spec fn sin_t3(x: int) -> int {
    rdiv(x * poly_y(x), 6_000_000)
}

/// Taylor term `x^5 / 5!`.
pub open spec fn sin_t5(x: int) -> int {
    rdiv(sin_t3(x) * poly_y(x), 20_000_000)
}

/// Taylor term `x^7 / 7!`.
pub open spec fn sin_t7(x: int) -> int {
    rdiv(sin_t5(x) * poly_y(x), 42_000_000)
}

/// Taylor term `x^9 / 9!`.
pub open spec fn sin_t9(x: int) -> int {
    rdiv(sin_t7(x) * poly_y(x), 72_000_000)
}

/// Taylor term `x^11 / 11!`.
pub open spec fn sin_t11(x: int) -> int {
    rdiv(sin_t9(x) * poly_y(x), 110_000_000)
}

/// The sine polynomial on the folded quarter-turn range
/// `[0, PI_URAD - HALF_PI_URAD]`.
pub open spec fn sin_poly(x: int) -> int {
    x - sin_t3(x) + sin_t5(x) - sin_t7(x) + sin_t9(x) - sin_t11(x)
}

/// Taylor term `x^2 / 2!`.
pub open spec fn cos_u2(x: int) -> int {
    rdiv(poly_y(x), 2)
}

/// Taylor term `x^4 / 4!`.
pub open spec fn cos_u4(x: int) -> int {
    rdiv(cos_u2(x) * poly_y(x), 12_000_000)
}

/// Taylor term `x^6 / 6!`.
pub open spec fn cos_u6(x: int) -> int {
    rdiv(cos_u4(x) * poly_y(x), 30_000_000)
}

/// Taylor term `x^8 / 8!`.
pub open spec fn cos_u8(x: int) -> int {
    rdiv(cos_u6(x) * poly_y(x), 56_000_000)
}

/// Taylor term `x^10 / 10!`.
pub open spec fn cos_u10(x: int) -> int {
    rdiv(cos_u8(x) * poly_y(x), 90_000_000)
}

/// Taylor term `x^12 / 12!`.
pub open spec fn cos_u12(x: int) -> int {
    rdiv(cos_u10(x) * poly_y(x), 132_000_000)
}

/// The cosine polynomial on the folded quarter-turn range.
pub open spec fn cos_poly(x: int) -> int {
    SCALE - cos_u2(x) + cos_u4(x) - cos_u6(x) + cos_u8(x) - cos_u10(x) + cos_u12(x)
}

/// Sine of `a` microradians, scaled by `SCALE`.
pub open spec fn sin_fp(a: int) -> int {
    let m = fold_angle(a);
    if m >= 0 {
        if m <= HALF_PI_URAD {
            sin_poly(m)
        } else {
            sin_poly(PI_URAD - m)
        }
    } else {
        if -m <= HALF_PI_URAD {
            -sin_poly(-m)
        } else {
            -sin_poly(PI_URAD + m)
        }
    }
}

/// Cosine of `a` microradians, scaled by `SCALE`.
pub open spec fn cos_fp(a: int) -> int {
    let m = fold_angle(a);
    let n = if m >= 0 { m } else { -m };
    if n <= HALF_PI_URAD {
        cos_poly(n)
    } else {
        -cos_poly(PI_URAD - n)
    }
}

/// Range bounds for every intermediate of the sine polynomial on its domain.
pub proof fn lemma_sin_poly_parts(x: int)
    requires
        0 <= x <= 1_570_797,
    ensures
        0 <= poly_y(x) <= 2_467_404,
        0 <= sin_t3(x) <= 650_000,
        0 <= sin_t5(x) <= 81_000,
        0 <= sin_t7(x) <= 4_800,
        0 <= sin_t9(x) <= 165,
        0 <= sin_t11(x) <= 4,
        -700_000 <= sin_poly(x) <= 1_660_000,
{
    lemma_mul_abs_bound(x, x, 1_570_797, 1_570_797);
    lemma_mul_nonnegative(x, x);
    lemma_rdiv_bounded(x * x, SCALE as int, 2_467_404);
    lemma_div_pos_is_pos(x * x + (SCALE as int) / 2, SCALE as int);
    lemma_mul_abs_bound(x, poly_y(x), 1_570_797, 2_467_404);
    lemma_mul_nonnegative(x, poly_y(x));
    lemma_rdiv_bounded(x * poly_y(x), 6_000_000, 650_000);
    lemma_div_pos_is_pos(x * poly_y(x) + 3_000_000, 6_000_000);
    lemma_mul_abs_bound(sin_t3(x), poly_y(x), 650_000, 2_467_404);
    lemma_mul_nonnegative(sin_t3(x), poly_y(x));
    lemma_rdiv_bounded(sin_t3(x) * poly_y(x), 20_000_000, 81_000);
    lemma_div_pos_is_pos(sin_t3(x) * poly_y(x) + 10_000_000, 20_000_000);
    lemma_mul_abs_bound(sin_t5(x), poly_y(x), 81_000, 2_467_404);
    lemma_mul_nonnegative(sin_t5(x), poly_y(x));
    lemma_rdiv_bounded(sin_t5(x) * poly_y(x), 42_000_000, 4_800);
    lemma_div_pos_is_pos(sin_t5(x) * poly_y(x) + 21_000_000, 42_000_000);
    lemma_mul_abs_bound(sin_t7(x), poly_y(x), 4_800, 2_467_404);
    lemma_mul_nonnegative(sin_t7(x), poly_y(x));
    lemma_rdiv_bounded(sin_t7(x) * poly_y(x), 72_000_000, 165);
    lemma_div_pos_is_pos(sin_t7(x) * poly_y(x) + 36_000_000, 72_000_000);
    lemma_mul_abs_bound(sin_t9(x), poly_y(x), 165, 2_467_404);
    lemma_mul_nonnegative(sin_t9(x), poly_y(x));
    lemma_rdiv_bounded(sin_t9(x) * poly_y(x), 110_000_000, 4);
    lemma_div_pos_is_pos(sin_t9(x) * poly_y(x) + 55_000_000, 110_000_000);
}

/// Range bounds for every intermediate of the cosine polynomial on its domain.
pub proof fn lemma_cos_poly_parts(x: int)
    requires
        0 <= x <= 1_570_797,
    ensures
        0 <= poly_y(x) <= 2_467_404,
        0 <= cos_u2(x) <= 1_233_702,
        0 <= cos_u4(x) <= 254_000,
        0 <= cos_u6(x) <= 21_000,
        0 <= cos_u8(x) <= 950,
        0 <= cos_u10(x) <= 27,
        0 <= cos_u12(x) <= 1,
        -300_000 <= cos_poly(x) <= 1_255_000,
{
    lemma_mul_abs_bound(x, x, 1_570_797, 1_570_797);
    lemma_mul_nonnegative(x, x);
    lemma_rdiv_bounded(x * x, SCALE as int, 2_467_404);
    lemma_div_pos_is_pos(x * x + (SCALE as int) / 2, SCALE as int);
    lemma_rdiv_bounded(poly_y(x), 2, 1_233_702);
    lemma_div_pos_is_pos(poly_y(x) + 1, 2);
    lemma_mul_abs_bound(cos_u2(x), poly_y(x), 1_233_702, 2_467_404);
    lemma_mul_nonnegative(cos_u2(x), poly_y(x));
    lemma_rdiv_bounded(cos_u2(x) * poly_y(x), 12_000_000, 254_000);
    lemma_div_pos_is_pos(cos_u2(x) * poly_y(x) + 6_000_000, 12_000_000);
    lemma_mul_abs_bound(cos_u4(x), poly_y(x), 254_000, 2_467_404);
    lemma_mul_nonnegative(cos_u4(x), poly_y(x));
    lemma_rdiv_bounded(cos_u4(x) * poly_y(x), 30_000_000, 21_000);
    lemma_div_pos_is_pos(cos_u4(x) * poly_y(x) + 15_000_000, 30_000_000);
    lemma_mul_abs_bound(cos_u6(x), poly_y(x), 21_000, 2_467_404);
    lemma_mul_nonnegative(cos_u6(x), poly_y(x));
    lemma_rdiv_bounded(cos_u6(x) * poly_y(x), 56_000_000, 950);
    lemma_div_pos_is_pos(cos_u6(x) * poly_y(x) + 28_000_000, 56_000_000);
    lemma_mul_abs_bound(cos_u8(x), poly_y(x), 950, 2_467_404);
    lemma_mul_nonnegative(cos_u8(x), poly_y(x));
    lemma_rdiv_bounded(cos_u8(x) * poly_y(x), 90_000_000, 27);
    lemma_div_pos_is_pos(cos_u8(x) * poly_y(x) + 45_000_000, 90_000_000);
    lemma_mul_abs_bound(cos_u10(x), poly_y(x), 27, 2_467_404);
    lemma_mul_nonnegative(cos_u10(x), poly_y(x));
    lemma_rdiv_bounded(cos_u10(x) * poly_y(x), 132_000_000, 1);
    lemma_div_pos_is_pos(cos_u10(x) * poly_y(x) + 66_000_000, 132_000_000);
}

/// The reduced angle lies in `(-PI_URAD, PI_URAD]`.
pub proof fn lemma_fold_range(a: int)
    ensures
        -(PI_URAD as int) < fold_angle(a) <= PI_URAD as int,
        0 <= angle_mod(a) < TWO_PI_URAD as int,
{
    lemma_mod_division_less_than_divisor(a, TWO_PI_URAD as int);
}

/// Coarse range bounds for the two trigonometric functions.
pub proof fn lemma_trig_bounds(a: int)
    ensures
        -1_700_000 <= sin_fp(a) <= 1_700_000,
        -1_300_000 <= cos_fp(a) <= 1_300_000,
{
    lemma_fold_range(a);
    let m = fold_angle(a);
    let n = if m >= 0 { m } else { -m };
    if n <= HALF_PI_URAD {
        lemma_sin_poly_parts(n);
        lemma_cos_poly_parts(n);
    } else {
        lemma_sin_poly_parts(PI_URAD - n);
        lemma_cos_poly_parts(PI_URAD - n);
    }
}

/// At angle zero the two functions take their exact anchor values.
pub proof fn lemma_trig_zero()
    ensures
        sin_fp(0) == 0,
        cos_fp(0) == SCALE as int,
{
    lemma_mod_division_less_than_divisor(0, TWO_PI_URAD as int);
    lemma_small_mod(0nat, TWO_PI_URAD as nat);
    assert(sin_poly(0) == 0);
    assert(cos_poly(0) == SCALE as int);
}

/// Negating an angle reflects its reduced form across zero.
pub proof fn lemma_angle_mod_neg(a: int)
    ensures
        angle_mod(a) == 0 ==> angle_mod(-a) == 0,
        angle_mod(a) != 0 ==> angle_mod(-a) == TWO_PI_URAD - angle_mod(a),
{
    let t = TWO_PI_URAD as int;
    let q = a / t;
    let r = a % t;
    lemma_fundamental_div_mod(a, t);
    lemma_mod_division_less_than_divisor(a, t);
    if r == 0 {
        assert(-a == (-q) * t + 0) by (nonlinear_arith)
            requires
                a == q * t + r,
                r == 0,
        ;
        lemma_fundamental_div_mod_converse_mod(-a, t, -q, 0);
    } else {
        assert(-a == (-q - 1) * t + (t - r)) by (nonlinear_arith)
            requires
                a == q * t + r,
        ;
        lemma_fundamental_div_mod_converse_mod(-a, t, -q - 1, t - r);
    }
}

/// Sine is odd and cosine is even, exactly, on the fixed-point grid.
pub proof fn lemma_trig_neg(a: int)
    ensures
        sin_fp(-a) == -sin_fp(a),
        cos_fp(-a) == cos_fp(a),
{
    lemma_fold_range(a);
    lemma_fold_range(-a);
    lemma_angle_mod_neg(a);
    let r = angle_mod(a);
    if r == 0 {
        assert(sin_poly(0) == 0);
    } else if r == PI_URAD {
        assert(angle_mod(-a) == PI_URAD);
        assert(sin_poly(0) == 0);
    }
}

/// Reduce an angle into `(-PI_URAD, PI_URAD]`.
fn fold_e(a: i64) -> (m: i64)
    ensures
        m as int == fold_angle(a as int),
{
    let k: u128 = 9_223_372_036_854_775_807u128 / 6_283_186u128 + 2;
    let lift: u128 = k * 6_283_186u128;
    let shifted: u128 = ((a as i128) + (lift as i128)) as u128;
    let m_u: u128 = shifted % 6_283_186u128;
    proof {
        lemma_mod_multiples_vanish(k as int, a as int, TWO_PI_URAD as int);
        lemma_mod_division_less_than_divisor(a as int, TWO_PI_URAD as int);
    }
    let r: i64 = m_u as i64;
    if r > PI_URAD {
        r - TWO_PI_URAD
    } else {
        r
    }
}

/// Evaluate the sine polynomial on the folded quarter-turn range.
fn sin_poly_e(x: i64) -> (r: i64)
    requires
        0 <= x <= 1_570_797,
    ensures
        r as int == sin_poly(x as int),
{
    proof {
        lemma_sin_poly_parts(x as int);
        lemma_mul_abs_bound(x as int, x as int, 1_570_797, 1_570_797);
        lemma_mul_abs_bound(x as int, poly_y(x as int), 1_570_797, 2_467_404);
        lemma_mul_abs_bound(sin_t3(x as int), poly_y(x as int), 650_000, 2_467_404);
        lemma_mul_abs_bound(sin_t5(x as int), poly_y(x as int), 81_000, 2_467_404);
        lemma_mul_abs_bound(sin_t7(x as int), poly_y(x as int), 4_800, 2_467_404);
        lemma_mul_abs_bound(sin_t9(x as int), poly_y(x as int), 165, 2_467_404);
    }
    let y: i64 = rdiv_e((x as i128) * (x as i128), 1_000_000) as i64;
    let t3: i64 = rdiv_e((x as i128) * (y as i128), 6_000_000) as i64;
    let t5: i64 = rdiv_e((t3 as i128) * (y as i128), 20_000_000) as i64;
    let t7: i64 = rdiv_e((t5 as i128) * (y as i128), 42_000_000) as i64;
    let t9: i64 = rdiv_e((t7 as i128) * (y as i128), 72_000_000) as i64;
    let t11: i64 = rdiv_e((t9 as i128) * (y as i128), 110_000_000) as i64;
    x - t3 + t5 - t7 + t9 - t11
}

/// Evaluate the cosine polynomial on the folded quarter-turn range.
fn cos_poly_e(x: i64) -> (r: i64)
    requires
        0 <= x <= 1_570_797,
    ensures
        r as int == cos_poly(x as int),
{
    proof {
        lemma_cos_poly_parts(x as int);
        lemma_mul_abs_bound(x as int, x as int, 1_570_797, 1_570_797);
        lemma_mul_abs_bound(cos_u2(x as int), poly_y(x as int), 1_233_702, 2_467_404);
        lemma_mul_abs_bound(cos_u4(x as int), poly_y(x as int), 254_000, 2_467_404);
        lemma_mul_abs_bound(cos_u6(x as int), poly_y(x as int), 21_000, 2_467_404);
        lemma_mul_abs_bound(cos_u8(x as int), poly_y(x as int), 950, 2_467_404);
        lemma_mul_abs_bound(cos_u10(x as int), poly_y(x as int), 27, 2_467_404);
    }
    let y: i64 = rdiv_e((x as i128) * (x as i128), 1_000_000) as i64;
    let u2: i64 = rdiv_e(y as i128, 2) as i64;
    let u4: i64 = rdiv_e((u2 as i128) * (y as i128), 12_000_000) as i64;
    let u6: i64 = rdiv_e((u4 as i128) * (y as i128), 30_000_000) as i64;
    let u8: i64 = rdiv_e((u6 as i128) * (y as i128), 56_000_000) as i64;
    let u10: i64 = rdiv_e((u8 as i128) * (y as i128), 90_000_000) as i64;
    let u12: i64 = rdiv_e((u10 as i128) * (y as i128), 132_000_000) as i64;
    SCALE - u2 + u4 - u6 + u8 - u10 + u12
}

/// Sine of an angle in microradians, scaled by `SCALE`.
pub fn sin_scaled(a: i64) -> (r: i64)
    ensures
        r as int == sin_fp(a as int),
        -1_700_000 <= r <= 1_700_000,
{
    proof {
        lemma_trig_bounds(a as int);
        lemma_fold_range(a as int);
    }
    let m: i64 = fold_e(a);
    if m >= 0 {
        if m <= HALF_PI_URAD {
            sin_poly_e(m)
        } else {
            sin_poly_e(PI_URAD - m)
        }
    } else {
        let n: i64 = -m;
        if n <= HALF_PI_URAD {
            let v: i64 = sin_poly_e(n);
            proof {
                lemma_sin_poly_parts(n as int);
            }
            -v
        } else {
            let v: i64 = sin_poly_e(PI_URAD - n);
            proof {
                lemma_sin_poly_parts(PI_URAD as int - n as int);
            }
            -v
        }
    }
}

/// Cosine of an angle in microradians, scaled by `SCALE`.
pub fn cos_scaled(a: i64) -> (r: i64)
    ensures
        r as int == cos_fp(a as int),
        -1_300_000 <= r <= 1_300_000,
{
    proof {
        lemma_trig_bounds(a as int);
        lemma_fold_range(a as int);
    }
    let m: i64 = fold_e(a);
    let n: i64 = if m >= 0 { m } else { -m };
    if n <= HALF_PI_URAD {
        cos_poly_e(n)
    } else {
        let v: i64 = cos_poly_e(PI_URAD - n);
        proof {
            lemma_cos_poly_parts(PI_URAD as int - n as int);
        }
        -v
    }
}

} // verus!
