//! Fixed-point scalars: values scaled by `SCALE`, division with rounding to
//! nearest (ties away from zero), and saturation of matrix entries.

use vstd::prelude::*;
use vstd::arithmetic::div_mod::*;
use vstd::arithmetic::mul::*;

verus! {

/// One unit of length or one radian, expressed on the fixed-point grid.
pub const SCALE: i64 = 1_000_000;

/// Largest magnitude a matrix entry or coordinate may take (2^62).  Keeping
/// entries within this bound lets every dot product of a composition be
/// computed exactly in 128-bit arithmetic.
pub const ENTRY_LIMIT: i64 = 4_611_686_018_427_387_904;

/// Largest magnitude accepted by the rounded-division helper; a little under
/// `i128::MAX`, and comfortably above any dot product of clamped entries.
pub const RDIV_LIMIT: i128 = 170_000_000_000_000_000_000_000_000_000_000_000_000;

/// Quotient of `n / d` rounded to the nearest integer, ties away from zero.
pub open spec fn rdiv(n: int, d: int) -> int {
    if n >= 0 {
        (n + d / 2) / d
    } else {
        -((-n + d / 2) / d)
    }
}

/// Clamp a value into the range of representable matrix entries.
pub open spec fn sat(n: int) -> int {
    if n > ENTRY_LIMIT {
        ENTRY_LIMIT as int
    } else if n < -(ENTRY_LIMIT as int) {
        -(ENTRY_LIMIT as int)
    } else {
        n
    }
}

/// A matrix entry: the clamped value, carried as an `i64`.
pub open spec fn ent(n: int) -> i64 {
    sat(n) as i64
}

/// Sum of two values, saturating at the `i64` range ends.
pub open spec fn sadd(a: int, b: int) -> i64 {
    if a + b > i64::MAX {
        i64::MAX
    } else if a + b < i64::MIN {
        i64::MIN
    } else {
        (a + b) as i64
    }
}

/// `ent` never leaves the entry range, and the clamp is the identity there.
pub proof fn lemma_ent_range(n: int)
    ensures
        -(ENTRY_LIMIT as int) <= ent(n) as int <= ENTRY_LIMIT as int,
        ent(n) as int == sat(n),
        (-(ENTRY_LIMIT as int) <= n <= ENTRY_LIMIT as int) ==> ent(n) as int == n,
{
}

/// Rounded division is exact on multiples of the divisor.
pub proof fn lemma_rdiv_exact(k: int, d: int)
    requires
        1 <= d,
    ensures
        rdiv(k * d, d) == k,
{
    lemma_mul_is_commutative(k, d);
    if k >= 0 {
        lemma_mul_nonnegative(k, d);
        lemma_div_multiples_vanish_fancy(k, d / 2, d);
    } else {
        lemma_mul_strictly_positive(-k, d);
        lemma_mul_unary_negation(k, d);
        lemma_div_multiples_vanish_fancy(-k, d / 2, d);
    }
}

/// If `|n| <= b * d` then `|rdiv(n, d)| <= b`.
pub proof fn lemma_rdiv_bounded(n: int, d: int, b: int)
    requires
        1 <= d,
        0 <= b,
        -(b * d) <= n <= b * d,
    ensures
        -b <= rdiv(n, d) <= b,
{
    lemma_div_multiples_vanish_fancy(b, d / 2, d);
    if n >= 0 {
        lemma_div_pos_is_pos(n + d / 2, d);
        lemma_div_is_ordered(n + d / 2, b * d + d / 2, d);
    } else {
        lemma_div_pos_is_pos(-n + d / 2, d);
        lemma_div_is_ordered(-n + d / 2, b * d + d / 2, d);
    }
}

/// Rounded division is within half a divisor of exact: the rescaled
/// quotient differs from the dividend by at most `d / 2`.
pub proof fn lemma_rdiv_error(n: int, d: int)
    requires
        1 <= d,
    ensures
        -(d / 2) <= rdiv(n, d) * d - n <= d / 2,
{
    lemma_fundamental_div_mod(d, 2);
    if n >= 0 {
        lemma_fundamental_div_mod(n + d / 2, d);
        lemma_mod_division_less_than_divisor(n + d / 2, d);
        lemma_mul_is_commutative(d, (n + d / 2) / d);
    } else {
        lemma_fundamental_div_mod(-n + d / 2, d);
        lemma_mod_division_less_than_divisor(-n + d / 2, d);
        lemma_mul_is_commutative(d, (-n + d / 2) / d);
        lemma_mul_unary_negation((-n + d / 2) / d, d);
    }
}

/// A model value within the representable range of the grid.
pub open spec fn in_grid(n: int) -> bool {
    -(ENTRY_LIMIT as int) * (SCALE as int) <= n <= (ENTRY_LIMIT as int) * (SCALE as int)
}

/// `r` is `n` rescaled onto the grid, off by at most half a grid step.
pub open spec fn half_step(r: int, n: int) -> bool {
    -((SCALE as int) / 2) <= r * (SCALE as int) - n <= (SCALE as int) / 2
}

/// Wherever a value stays in the representable range, rounding it onto the
/// grid moves it by at most half a grid step; the clamp never engages.
pub proof fn lemma_grid_rounding(n: int)
    ensures
        (-(ENTRY_LIMIT as int) * (SCALE as int) <= n <= (ENTRY_LIMIT as int) * (SCALE as int))
            ==> (-((SCALE as int) / 2)
                <= (ent(rdiv(n, SCALE as int)) as int) * (SCALE as int) - n
                <= (SCALE as int) / 2),
{
    if -(ENTRY_LIMIT as int) * (SCALE as int) <= n <= (ENTRY_LIMIT as int) * (SCALE as int) {
        lemma_rdiv_bounded(n, SCALE as int, ENTRY_LIMIT as int);
        lemma_rdiv_error(n, SCALE as int);
        lemma_ent_range(rdiv(n, SCALE as int));
    }
}

/// Magnitude bound for a product from magnitude bounds on the factors.
pub proof fn lemma_mul_abs_bound(x: int, y: int, bx: int, by: int)
    requires
        -bx <= x <= bx,
        -by <= y <= by,
    ensures
        -(bx * by) <= x * y <= bx * by,
{
    assert(-(bx * by) <= x * y <= bx * by) by (nonlinear_arith)
        requires
            -bx <= x <= bx,
            -by <= y <= by,
    ;
}

/// Rounded division by `d`, computed exactly in unsigned 128-bit arithmetic.
pub fn rdiv_e(n: i128, d: u64) -> (r: i128)
    requires
        1 <= d,
        d <= 1_000_000_000,
        -RDIV_LIMIT <= n <= RDIV_LIMIT,
    ensures
        r as int == rdiv(n as int, d as int),
{
    let du: u128 = d as u128;
    let half: u128 = du / 2;
    if n >= 0 {
        let num: u128 = (n as u128) + half;
        let q: u128 = num / du;
        proof {
            lemma_div_nonincreasing(num as int, du as int);
        }
        q as i128
    } else {
        let num: u128 = ((-n) as u128) + half;
        let q: u128 = num / du;
        proof {
            lemma_div_nonincreasing(num as int, du as int);
        }
        -(q as i128)
    }
}

/// Clamp a 128-bit intermediate into the entry range.
pub fn sat_e(n: i128) -> (r: i64)
    ensures
        r as int == sat(n as int),
{
    if n > ENTRY_LIMIT as i128 {
        ENTRY_LIMIT
    } else if n < -(ENTRY_LIMIT as i128) {
        -ENTRY_LIMIT
    } else {
        n as i64
    }
}

/// Clamp an `i64` into the entry range.
pub fn clamp_entry(x: i64) -> (r: i64)
    ensures
        r == ent(x as int),
{
    if x > ENTRY_LIMIT {
        ENTRY_LIMIT
    } else if x < -ENTRY_LIMIT {
        -ENTRY_LIMIT
    } else {
        x
    }
}

/// Sum of two `i64` values, saturating at the type's range ends.
pub fn saturating_add64(a: i64, b: i64) -> (r: i64)
    ensures
        r == sadd(a as int, b as int),
{
    let s: i128 = (a as i128) + (b as i128);
    if s > i64::MAX as i128 {
        i64::MAX
    } else if s < i64::MIN as i128 {
        i64::MIN
    } else {
        s as i64
    }
}

} // verus!
