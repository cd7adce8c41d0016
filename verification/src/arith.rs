//! Fixed-point arithmetic on prices, ratios and cash.
//!
//! A price, a ratio or a cash balance is an `i64` that counts millionths:
//! `UNIT` stands for `1.0`. Intermediate results are held in `i128`, where
//! no product of two `i64` values can overflow, and are brought back into
//! `i64` by saturation. Division rounds towards negative infinity, as the
//! division of mathematical integers by a positive number does.

use vstd::arithmetic::div_mod::{lemma_fundamental_div_mod, lemma_fundamental_div_mod_converse};
use vstd::prelude::*;

verus! {

/// One whole unit, in millionths.
pub const UNIT: i64 = 1_000_000;

/// `x` held between `lo` and `hi`.
pub open spec fn clamp(x: int, lo: int, hi: int) -> int {
    if x < lo {
        lo
    } else if x > hi {
        hi
    } else {
        x
    }
}

/// `x` held within the range of `i64`.
pub open spec fn saturate(x: int) -> int {
    clamp(x, i64::MIN as int, i64::MAX as int)
}

/// `x` times `ratio`, where `ratio` counts millionths; rounded down.
pub open spec fn scaled(x: int, ratio: int) -> int {
    (x * ratio) / (UNIT as int)
}

/// The larger of two integers.
pub open spec fn larger(a: int, b: int) -> int {
    if a >= b {
        a
    } else {
        b
    }
}

/// The smaller of two integers.
pub open spec fn smaller(a: int, b: int) -> int {
    if a <= b {
        a
    } else {
        b
    }
}

/// Brings a wide intermediate result back into `i64`, saturating at the ends.
pub fn saturate_wide(x: i128) -> (r: i64)
    ensures
        r == saturate(x as int),
{
    if x < i64::MIN as i128 {
        i64::MIN
    } else if x > i64::MAX as i128 {
        i64::MAX
    } else {
        x as i64
    }
}

/// Divides by a positive number, rounding towards negative infinity.
pub fn floor_div(a: i128, b: i128) -> (q: i128)
    requires
        b > 0,
        i128::MIN < a,
    ensures
        q == (a as int) / (b as int),
{
    if a >= 0 {
        a / b
    } else {
        let n: i128 = -a;
        let t: i128 = n / b;
        let r: i128 = n % b;
        proof {
            lemma_fundamental_div_mod(n as int, b as int);
            assert(n == b * t + r);
            if r == 0 {
                assert(a == (-t) * b + 0) by (nonlinear_arith)
                    requires
                        n == b * t + r,
                        r == 0,
                        a == -n,
                ;
                lemma_fundamental_div_mod_converse(a as int, b as int, -(t as int), 0);
            } else {
                assert(a == (-t - 1) * b + (b - r)) by (nonlinear_arith)
                    requires
                        n == b * t + r,
                        a == -n,
                ;
                lemma_fundamental_div_mod_converse(
                    a as int,
                    b as int,
                    -(t as int) - 1,
                    b as int - r as int,
                );
            }
        }
        if r == 0 {
            -t
        } else {
            -t - 1
        }
    }
}

/// `x` times `ratio`, where `ratio` counts millionths; rounded down.
pub fn scale(x: i64, ratio: i64) -> (r: i128)
    ensures
        r == scaled(x as int, ratio as int),
        -0x4000_0000_0000_0000_0000_0000_0000_0000 <= r <= 0x4000_0000_0000_0000_0000_0000_0000_0000,
{
    proof {
        lemma_product_bound(x as int, ratio as int);
        lemma_fundamental_div_mod(x as int * ratio as int, UNIT as int);
    }
    floor_div(x as i128 * ratio as i128, UNIT as i128)
}

/// The product of two `i64` values lies well within `i128`.
pub proof fn lemma_product_bound(a: int, b: int)
    requires
        i64::MIN <= a <= i64::MAX,
        i64::MIN <= b <= i64::MAX,
    ensures
        -0x4000_0000_0000_0000_0000_0000_0000_0000 <= a * b <= 0x4000_0000_0000_0000_0000_0000_0000_0000,
{
    assert(-0x4000_0000_0000_0000_0000_0000_0000_0000 <= a * b
        <= 0x4000_0000_0000_0000_0000_0000_0000_0000) by (nonlinear_arith)
        requires
            -0x8000_0000_0000_0000 <= a <= 0x8000_0000_0000_0000,
            -0x8000_0000_0000_0000 <= b <= 0x8000_0000_0000_0000,
    ;
}

/// The product of an `i64` value and a positive `i64` value keeps a margin
/// within `i128`, so that two such products can be added up.
pub proof fn lemma_product_bound_positive(a: int, b: int)
    requires
        i64::MIN <= a <= i64::MAX,
        0 < b <= i64::MAX,
    ensures
        -0x8000_0000_0000_0000 * 0x7fff_ffff_ffff_ffff <= a * b <= 0x7fff_ffff_ffff_ffff
            * 0x7fff_ffff_ffff_ffff,
{
    assert(-0x8000_0000_0000_0000 * 0x7fff_ffff_ffff_ffff <= a * b) by (nonlinear_arith)
        requires
            -0x8000_0000_0000_0000 <= a,
            0 < b <= 0x7fff_ffff_ffff_ffff,
    ;
    assert(a * b <= 0x7fff_ffff_ffff_ffff * 0x7fff_ffff_ffff_ffff) by (nonlinear_arith)
        requires
            a <= 0x7fff_ffff_ffff_ffff,
            0 < b <= 0x7fff_ffff_ffff_ffff,
    ;
}

} // verus!
