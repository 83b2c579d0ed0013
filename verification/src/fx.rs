//! 16.16 fixed-point scalars.
//!
//! A scalar is an `i64` holding `value * 65536`.  Multiplication and division
//! truncate the result toward zero, and every operation saturates at the
//! `i64` range, so each operation is a total, deterministic function of its
//! operands.  Each executable operation is specified exactly by a spec-level
//! mirror (`fx_mul_s`, `fx_div_s`, ...).

use vstd::prelude::*;

verus! {

/// The fixed-point representation of 1.
pub const FX_ONE: i64 = 65536;
/// The fixed-point representation of 2.
pub const FX_TWO: i64 = 131072;
/// The fixed-point representation of 4.
pub const FX_FOUR: i64 = 262144;
/// The fixed-point representation of 1/2.
pub const FX_HALF: i64 = 32768;

/// Magnitude of a mathematical integer.
pub open spec fn mag(a: int) -> int {
    if a >= 0 {
        a
    } else {
        -a
    }
}

/// Saturation of a mathematical integer to the `i64` range.
pub open spec fn fx_clip(v: int) -> i64 {
    if v > i64::MAX {
        i64::MAX
    } else if v < i64::MIN {
        i64::MIN
    } else {
        v as i64
    }
}

/// Fixed-point product: the exact product scaled down by 65536, truncated
/// toward zero and saturated.
pub open spec fn fx_mul_s(a: i64, b: i64) -> i64 {
    let m: int = (mag(a as int) * mag(b as int)) / 65536;
    if (a < 0) == (b < 0) {
        fx_clip(m)
    } else {
        fx_clip(-m)
    }
}

/// Fixed-point quotient, truncated toward zero and saturated; division by
/// zero is defined as zero.
pub open spec fn fx_div_s(a: i64, b: i64) -> i64 {
    if b == 0 {
        0
    } else {
        let m: int = (mag(a as int) * 65536) / mag(b as int);
        if (a < 0) == (b < 0) {
            fx_clip(m)
        } else {
            fx_clip(-m)
        }
    }
}

/// Saturating sum.
pub open spec fn fx_add_s(a: i64, b: i64) -> i64 {
    fx_clip(a + b)
}

/// Saturating difference.
pub open spec fn fx_sub_s(a: i64, b: i64) -> i64 {
    fx_clip(a - b)
}

/// Saturating negation.
pub open spec fn fx_neg_s(a: i64) -> i64 {
    fx_clip(-a)
}

/// Integer square root, rounded down; zero for negative arguments.
pub open spec fn sqrt_floor(n: int) -> int
    decreases n,
{
    if n <= 0 {
        0
    } else {
        let r: int = sqrt_floor(n - 1);
        if (r + 1) * (r + 1) <= n {
            r + 1
        } else {
            r
        }
    }
}

/// Fixed-point square root: the integer square root of the value rescaled to
/// 32 fractional bits, so that the result is again a 16.16 scalar; zero for
/// non-positive arguments.
pub open spec fn fx_sqrt_s(v: i64) -> i64 {
    if v <= 0 {
        0
    } else {
        fx_clip(sqrt_floor(v * 65536))
    }
}

/// `sqrt_floor(n)` is characterized by bracketing `n` between consecutive
/// squares.
pub proof fn lemma_sqrt_floor_bounds(n: int)
    requires
        n >= 0,
    ensures
        sqrt_floor(n) >= 0,
        sqrt_floor(n) * sqrt_floor(n) <= n,
        n < (sqrt_floor(n) + 1) * (sqrt_floor(n) + 1),
    decreases n,
{
    if n == 0 {
    } else {
        lemma_sqrt_floor_bounds(n - 1);
        let r: int = sqrt_floor(n - 1);
        if (r + 1) * (r + 1) <= n {
            assert(n - 1 < (r + 1) * (r + 1));
            assert(n == (r + 1) * (r + 1));
            assert(n < (r + 2) * (r + 2)) by (nonlinear_arith)
                requires
                    n == (r + 1) * (r + 1),
                    r >= 0,
            ;
        }
    }
}

/// The bracketing between consecutive squares determines the root uniquely.
pub proof fn lemma_sqrt_unique(n: int, r: int)
    requires
        n >= 0,
        r >= 0,
        r * r <= n,
        n < (r + 1) * (r + 1),
    ensures
        r == sqrt_floor(n),
{
    lemma_sqrt_floor_bounds(n);
    let s: int = sqrt_floor(n);
    if r < s {
        assert(false) by (nonlinear_arith)
            requires
                0 <= r < s,
                s * s <= n,
                n < (r + 1) * (r + 1),
        ;
    }
    if s < r {
        assert(false) by (nonlinear_arith)
            requires
                0 <= s < r,
                r * r <= n,
                n < (s + 1) * (s + 1),
        ;
    }
}

/// The fixed-point product of non-negative scalars is non-negative.
pub proof fn lemma_fx_mul_nonneg(a: i64, b: i64)
    requires
        0 <= a,
        0 <= b,
    ensures
        0 <= fx_mul_s(a, b),
{
    assert(0 <= mag(a as int) * mag(b as int)) by (nonlinear_arith)
        requires
            0 <= mag(a as int),
            0 <= mag(b as int),
    ;
}

/// The fixed-point square of any scalar is non-negative.
pub proof fn lemma_fx_square_nonneg(a: i64)
    ensures
        0 <= fx_mul_s(a, a),
{
    assert(0 <= mag(a as int) * mag(a as int)) by (nonlinear_arith);
}

/// The fixed-point quotient of non-negative scalars is non-negative.
pub proof fn lemma_fx_div_nonneg(a: i64, b: i64)
    requires
        0 <= a,
        0 <= b,
    ensures
        0 <= fx_div_s(a, b),
{
    if b != 0 {
        assert(0 <= mag(a as int) * 65536) by (nonlinear_arith)
            requires
                0 <= mag(a as int),
        ;
        vstd::arithmetic::div_mod::lemma_div_pos_is_pos(mag(a as int) * 65536, mag(b as int));
    }
}

/// Multiplying by zero gives zero.
pub proof fn lemma_fx_mul_zero(b: i64)
    ensures
        fx_mul_s(0, b) == 0,
        fx_mul_s(b, 0) == 0,
{
    assert(mag(0int) == 0int);
    assert(0int * mag(b as int) == 0int) by (nonlinear_arith);
    assert(mag(b as int) * 0int == 0int) by (nonlinear_arith);
    assert(0int / 65536int == 0int);
}

/// The fixed-point one is the multiplicative unit.
pub proof fn lemma_fx_mul_one(b: i64)
    ensures
        fx_mul_s(FX_ONE, b) == b,
        fx_mul_s(b, FX_ONE) == b,
{
    let m: int = mag(b as int);
    assert(mag(FX_ONE as int) == 65536int);
    assert(65536int * m == m * 65536int) by (nonlinear_arith);
    vstd::arithmetic::div_mod::lemma_div_by_multiple(m, 65536int);
    assert((65536int * m) / 65536int == m);
}

/// Magnitude of an `i64`, exact also for `i64::MIN`.
fn i64_mag(a: i64) -> (r: u64)
    ensures
        r == mag(a as int),
{
    if a >= 0 {
        a as u64
    } else {
        (-(a as i128)) as u64
    }
}

/// Saturate a non-negative magnitude to `i64`.
fn clip_of_pos(m: u128) -> (r: i64)
    ensures
        r == fx_clip(m as int),
{
    if m > 0x7fffffffffffffff {
        i64::MAX
    } else {
        m as i64
    }
}

/// Saturate the negation of a magnitude to `i64`.
fn clip_of_neg(m: u128) -> (r: i64)
    ensures
        r == fx_clip(-(m as int)),
{
    if m >= 0x8000000000000000 {
        i64::MIN
    } else {
        -(m as i64)
    }
}

/// Saturate an `i128` to `i64`.
fn clip_i128(v: i128) -> (r: i64)
    ensures
        r == fx_clip(v as int),
{
    if v > i64::MAX as i128 {
        i64::MAX
    } else if v < i64::MIN as i128 {
        i64::MIN
    } else {
        v as i64
    }
}

/// Fixed-point product.
pub fn fx_mul(a: i64, b: i64) -> (r: i64)
    ensures
        r == fx_mul_s(a, b),
{
    let ma: u128 = i64_mag(a) as u128;
    let mb: u128 = i64_mag(b) as u128;
    proof {
        assert(ma * mb <= 0x8000000000000000 * 0x8000000000000000) by (nonlinear_arith)
            requires
                0 <= ma <= 0x8000000000000000,
                0 <= mb <= 0x8000000000000000,
        ;
    }
    let m: u128 = (ma * mb) / 65536;
    if (a < 0) == (b < 0) {
        clip_of_pos(m)
    } else {
        clip_of_neg(m)
    }
}

/// Fixed-point quotient; division by zero yields zero.
pub fn fx_div(a: i64, b: i64) -> (r: i64)
    ensures
        r == fx_div_s(a, b),
{
    if b == 0 {
        return 0;
    }
    let ma: u128 = i64_mag(a) as u128;
    let mb: u128 = i64_mag(b) as u128;
    let m: u128 = (ma * 65536) / mb;
    if (a < 0) == (b < 0) {
        clip_of_pos(m)
    } else {
        clip_of_neg(m)
    }
}

/// Saturating sum.
pub fn fx_add(a: i64, b: i64) -> (r: i64)
    ensures
        r == fx_add_s(a, b),
{
    clip_i128(a as i128 + b as i128)
}

/// Saturating difference.
pub fn fx_sub(a: i64, b: i64) -> (r: i64)
    ensures
        r == fx_sub_s(a, b),
{
    clip_i128(a as i128 - b as i128)
}

/// Saturating negation.
pub fn fx_neg(a: i64) -> (r: i64)
    ensures
        r == fx_neg_s(a),
{
    clip_i128(-(a as i128))
}

/// Integer square root by bisection.
fn isqrt_u128(n: u128) -> (r: u64)
    ensures
        r == sqrt_floor(n as int),
{
    let mut lo: u128 = 0;
    let mut hi: u128 = 0x10000000000000000;
    proof {
        assert((n as int) < hi * hi) by (nonlinear_arith)
            requires
                hi == 0x10000000000000000,
                n <= u128::MAX,
        ;
    }
    while lo + 1 < hi
        invariant
            lo < hi,
            hi <= 0x10000000000000000,
            lo * lo <= n,
            (n as int) < hi * hi,
        decreases hi - lo,
    {
        let mid: u128 = lo + (hi - lo) / 2;
        proof {
            assert(mid * mid < 0x100000000000000000000000000000000) by (nonlinear_arith)
                requires
                    mid < 0x10000000000000000,
            ;
        }
        if mid * mid <= n {
            lo = mid;
        } else {
            hi = mid;
        }
    }
    proof {
        assert((n as int) < (lo + 1) * (lo + 1));
        lemma_sqrt_unique(n as int, lo as int);
        assert(lo * lo <= n && lo < 0x10000000000000000) by (nonlinear_arith)
            requires
                lo * lo <= n,
                n <= u128::MAX,
                lo < 0x10000000000000001,
        ;
    }
    lo as u64
}

/// Fixed-point square root.
pub fn fx_sqrt(v: i64) -> (r: i64)
    ensures
        r == fx_sqrt_s(v),
{
    if v <= 0 {
        return 0;
    }
    let n: u128 = (v as u128) * 65536;
    let s: u64 = isqrt_u128(n);
    proof {
        lemma_sqrt_floor_bounds(n as int);
        assert(s < 0x100000000000) by (nonlinear_arith)
            requires
                s >= 0,
                (s as int) * (s as int) <= n as int,
                n < 0x10000000000000000000000,
        ;
    }
    s as i64
}

} // verus!

