//! Fixed-point scalars.
//!
//! A scalar is an `i64` that counts millionths: the world length `16` is the
//! scalar `16_000_000`, a frame of a sixtieth of a second is `16_667`.
//! Sums, differences and products that leave the range of `i64` stop at its
//! ends, so every operation is defined on every input.

use vstd::prelude::*;

verus! {

/// The scalar that stands for the number one.
pub const ONE: i64 = 1_000_000;

/// The nearest `i64` to a mathematical integer.
pub open spec fn saturate(v: int) -> i64 {
    if v < i64::MIN {
        i64::MIN
    } else if v > i64::MAX {
        i64::MAX
    } else {
        v as i64
    }
}

/// Quotient rounded toward zero, for a positive divisor.
pub open spec fn quotient(n: int, d: int) -> int
    recommends
        d > 0,
{
    if n >= 0 {
        n / d
    } else {
        -((-n) / d)
    }
}

/// The sum, stopped at the ends of the range.
pub open spec fn spec_sat_add(a: i64, b: i64) -> i64 {
    saturate(a + b)
}

/// The difference, stopped at the ends of the range.
pub open spec fn spec_sat_sub(a: i64, b: i64) -> i64 {
    saturate(a - b)
}

/// The negation, stopped at the upper end of the range.
pub open spec fn spec_sat_neg(a: i64) -> i64 {
    saturate(-a)
}

/// The magnitude, stopped at the upper end of the range.
pub open spec fn spec_sat_abs(a: i64) -> i64 {
    if a < 0 {
        saturate(-a)
    } else {
        a
    }
}

/// The product of two scalars as a scalar.
pub open spec fn spec_fx_mul(a: i64, b: i64) -> i64 {
    saturate(quotient(a * b, ONE as int))
}

/// The quotient of two scalars as a scalar.
pub open spec fn spec_fx_div(a: i64, b: i64) -> i64
    recommends
        b > 0,
{
    saturate(quotient(a * ONE, b as int))
}

/// `r` is the square root of `n`, rounded down.
pub open spec fn is_floor_sqrt(n: int, r: int) -> bool {
    r >= 0 && r * r <= n < (r + 1) * (r + 1)
}

/// The square root of a non-negative integer, rounded down.
pub open spec fn floor_sqrt(n: int) -> int
    recommends
        n >= 0,
{
    choose|r: int| is_floor_sqrt(n, r)
}

/// Half of a scalar.
pub open spec fn spec_half(a: i64) -> i64 {
    quotient(a as int, 2) as i64
}

/// The exact product of the two is negative.
pub open spec fn spec_sign_flip(a: i64, b: i64) -> bool {
    a * b < 0
}

/// `value` brought into `[min, max]`; where the two limits cross, `min`
/// wins for a value below it and `max` for every other.
pub open spec fn spec_clamp(value: i64, min: i64, max: i64) -> i64 {
    if value < min {
        min
    } else if value > max {
        max
    } else {
        value
    }
}

/// Brings a wide intermediate result back into the scalar range.
fn narrow(v: i128) -> (r: i64)
    ensures
        r == saturate(v as int),
{
    if v < i64::MIN as i128 {
        i64::MIN
    } else if v > i64::MAX as i128 {
        i64::MAX
    } else {
        v as i64
    }
}

/// Saturating sum.
#[verifier::when_used_as_spec(spec_sat_add)]
pub fn sat_add(a: i64, b: i64) -> (r: i64)
    ensures
        r == saturate(a + b),
{
    narrow(a as i128 + b as i128)
}

/// Saturating difference.
#[verifier::when_used_as_spec(spec_sat_sub)]
pub fn sat_sub(a: i64, b: i64) -> (r: i64)
    ensures
        r == saturate(a - b),
{
    narrow(a as i128 - b as i128)
}

/// Saturating negation: the negation of `i64::MIN` is `i64::MAX`.
#[verifier::when_used_as_spec(spec_sat_neg)]
pub fn sat_neg(a: i64) -> (r: i64)
    ensures
        r == saturate(-a),
{
    narrow(-(a as i128))
}

/// Saturating absolute value.
#[verifier::when_used_as_spec(spec_sat_abs)]
pub fn sat_abs(a: i64) -> (r: i64)
    ensures
        r == spec_sat_abs(a),
        r >= 0,
{
    if a < 0 {
        sat_neg(a)
    } else {
        a
    }
}

/// Fixed-point product `a * b / ONE`, rounded toward zero and saturated.
#[verifier::when_used_as_spec(spec_fx_mul)]
pub fn fx_mul(a: i64, b: i64) -> (r: i64)
    ensures
        r == saturate(quotient(a * b, ONE as int)),
{
    proof {
        lemma_product_bound(a as int, b as int);
    }
    let p: i128 = (a as i128) * (b as i128);
    if p >= 0 {
        let q: u128 = (p as u128) / 1_000_000u128;
        narrow(q as i128)
    } else {
        let q: u128 = ((-p) as u128) / 1_000_000u128;
        narrow(-(q as i128))
    }
}

/// Fixed-point quotient `a * ONE / b` for a positive divisor, rounded toward
/// zero and saturated.
#[verifier::when_used_as_spec(spec_fx_div)]
pub fn fx_div(a: i64, b: i64) -> (r: i64)
    requires
        b > 0,
    ensures
        r == saturate(quotient(a * ONE, b as int)),
{
    let p: i128 = (a as i128) * 1_000_000i128;
    if p >= 0 {
        let q: u128 = (p as u128) / (b as u128);
        narrow(q as i128)
    } else {
        let q: u128 = ((-p) as u128) / (b as u128);
        narrow(-(q as i128))
    }
}

/// The magnitude of a scalar as an unsigned integer.
pub fn unsigned_abs(a: i64) -> (r: u128)
    ensures
        r == if a < 0 {
            -a
        } else {
            a as int
        },
{
    if a < 0 {
        (-(a as i128)) as u128
    } else {
        a as u128
    }
}

/// The square root of `n`, rounded down.
pub fn isqrt(n: u128) -> (r: u64)
    ensures
        is_floor_sqrt(n as int, r as int),
        r == floor_sqrt(n as int),
{
    let mut lo: u128 = 0;
    let mut hi: u128 = 0x1_0000_0000_0000_0000;
    while hi - lo > 1
        invariant
            lo < hi <= 0x1_0000_0000_0000_0000,
            lo * lo <= n < hi * hi,
        decreases hi - lo,
    {
        let mid: u128 = lo + (hi - lo) / 2;
        assert(mid * mid <= 0xFFFF_FFFF_FFFF_FFFF * 0xFFFF_FFFF_FFFF_FFFF) by (nonlinear_arith)
            requires
                0 <= mid <= 0xFFFF_FFFF_FFFF_FFFF,
        ;
        if mid * mid <= n {
            lo = mid;
        } else {
            hi = mid;
        }
    }
    proof {
        assert(is_floor_sqrt(n as int, lo as int));
        lemma_floor_sqrt_unique(n as int, lo as int, floor_sqrt(n as int));
    }
    lo as u64
}

/// Half of a scalar, rounded toward zero.
#[verifier::when_used_as_spec(spec_half)]
pub fn half(a: i64) -> (r: i64)
    ensures
        r == quotient(a as int, 2),
{
    if a >= 0 {
        ((a as u64) / 2u64) as i64
    } else {
        let m: u128 = ((-(a as i128)) as u128) / 2u128;
        (-(m as i128)) as i64
    }
}

/// Whether two scalars lie strictly on opposite sides of zero, that is,
/// whether their exact product is negative.
#[verifier::when_used_as_spec(spec_sign_flip)]
pub fn sign_flip(a: i64, b: i64) -> (r: bool)
    ensures
        r == (a * b < 0),
{
    proof {
        lemma_product_sign(a as int, b as int);
    }
    (a < 0 && b > 0) || (a > 0 && b < 0)
}

/// `macroquad::math::clamp` at the scalar type. That function compares with
/// `<` and `>` only: below `min` it gives `min`, otherwise above `max` it
/// gives `max`, otherwise the value itself. It never panics, also where
/// `min` exceeds `max`.
#[verifier::external_body]
pub(crate) fn clamp(value: i64, min: i64, max: i64) -> (r: i64)
    ensures
        r == spec_clamp(value, min, max),
{
    macroquad::math::clamp(value, min, max)
}

/// The product of two scalars fits comfortably in 128 bits.
proof fn lemma_product_bound(a: int, b: int)
    requires
        i64::MIN <= a <= i64::MAX,
        i64::MIN <= b <= i64::MAX,
    ensures
        -0x4000_0000_0000_0000_0000_0000_0000_0000 <= a * b
            <= 0x4000_0000_0000_0000_0000_0000_0000_0000,
{
    assert(-0x4000_0000_0000_0000_0000_0000_0000_0000 <= a * b
        <= 0x4000_0000_0000_0000_0000_0000_0000_0000) by (nonlinear_arith)
        requires
            -0x8000_0000_0000_0000 <= a <= 0x8000_0000_0000_0000,
            -0x8000_0000_0000_0000 <= b <= 0x8000_0000_0000_0000,
    ;
}

/// A fixed-point product of two non-negative scalars is non-negative, and a
/// product with zero is zero.
pub proof fn lemma_fx_mul_sign(a: i64, b: i64)
    ensures
        a >= 0 && b >= 0 ==> spec_fx_mul(a, b) >= 0,
        a == 0 || b == 0 ==> spec_fx_mul(a, b) == 0,
{
    if a >= 0 && b >= 0 {
        assert(a * b >= 0) by (nonlinear_arith)
            requires
                a >= 0,
                b >= 0,
        ;
    }
    if a == 0 || b == 0 {
        assert(a * b == 0) by (nonlinear_arith)
            requires
                a == 0 || b == 0,
        ;
    }
}

/// A non-negative integer has one square root rounded down.
pub proof fn lemma_floor_sqrt_unique(n: int, a: int, b: int)
    requires
        is_floor_sqrt(n, a),
        is_floor_sqrt(n, b),
    ensures
        a == b,
{
    if a < b {
        assert((a + 1) * (a + 1) <= b * b) by (nonlinear_arith)
            requires
                0 <= a + 1 <= b,
        ;
    }
    if b < a {
        assert((b + 1) * (b + 1) <= a * a) by (nonlinear_arith)
            requires
                0 <= b + 1 <= a,
        ;
    }
}

/// A product is negative exactly when its factors have opposite signs.
pub proof fn lemma_product_sign(a: int, b: int)
    ensures
        a * b < 0 <==> (a < 0 && b > 0) || (a > 0 && b < 0),
{
    assert(a * b < 0 <==> (a < 0 && b > 0) || (a > 0 && b < 0)) by (nonlinear_arith);
}

} // verus!
