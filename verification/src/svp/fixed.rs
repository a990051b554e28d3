//! Q16.16 fixed-point arithmetic.
//!
//! Coordinates, depths, texture coordinates and blend factors are signed
//! 32-bit numbers with sixteen fractional bits. Products are formed in
//! wider integers, rounded toward minus infinity and saturated, so that no
//! operation here can overflow.

use vstd::prelude::*;

verus! {

/// The fixed-point number 1.
pub const ONE: i32 = 0x1_0000;

/// The fixed-point number one half.
pub const HALF: i32 = 0x8000;

/// `v` cut to the range of `i32`.
pub open spec fn clamp_i32(v: int) -> int {
    if v < i32::MIN {
        i32::MIN as int
    } else if v > i32::MAX {
        i32::MAX as int
    } else {
        v
    }
}

/// `v` cut to `[lo, hi]`.
pub open spec fn clamp_int(v: int, lo: int, hi: int) -> int {
    if v < lo {
        lo
    } else if v > hi {
        hi
    } else {
        v
    }
}

pub open spec fn abs_int(v: int) -> int {
    if v < 0 {
        -v
    } else {
        v
    }
}

/// The quotient of `n` by `d` rounded toward zero.
pub open spec fn trunc_div(n: int, d: int) -> int
    recommends
        d != 0,
{
    if (n < 0) == (d < 0) {
        abs_int(n) / abs_int(d)
    } else {
        -(abs_int(n) / abs_int(d))
    }
}

/// The product of two fixed-point numbers.
pub open spec fn fx_mul_spec(a: int, b: int) -> int {
    clamp_i32((a * b) / 65536)
}

/// The quotient of two fixed-point numbers.
pub open spec fn fx_div_spec(a: int, b: int) -> int
    recommends
        b != 0,
{
    clamp_i32(trunc_div(a * 65536, b))
}

/// The fixed-point value of a sum of raw products.
pub open spec fn fx_of_products(sum: int) -> int {
    clamp_i32(sum / 65536)
}

/// The blend of `a` and `b` that takes `t` of `b`, for `t` from 0 to 1.
pub open spec fn lerp_spec(a: int, b: int, t: int) -> int {
    (a * (65536 - t) + b * t) / 65536
}

pub proof fn lemma_product_bound(a: int, b: int, ba: int, bb: int)
    by (nonlinear_arith)
    requires
        -ba <= a <= ba,
        -bb <= b <= bb,
    ensures
        -(ba * bb) <= a * b <= ba * bb,
{
}

pub proof fn lemma_lerp_bound(a: int, b: int, t: int, hi: int)
    by (nonlinear_arith)
    requires
        0 <= a <= hi,
        0 <= b <= hi,
        0 <= t <= 65536,
    ensures
        0 <= a * (65536 - t) + b * t <= hi * 65536,
{
}

pub fn saturate_i32(v: i64) -> (r: i32)
    ensures
        r == clamp_i32(v as int),
{
    if v < i32::MIN as i64 {
        i32::MIN
    } else if v > i32::MAX as i64 {
        i32::MAX
    } else {
        v as i32
    }
}

pub fn saturate_i128(v: i128) -> (r: i32)
    ensures
        r == clamp_i32(v as int),
{
    if v < i32::MIN as i128 {
        i32::MIN
    } else if v > i32::MAX as i128 {
        i32::MAX
    } else {
        v as i32
    }
}

/// Splits a raw value into its whole part, rounded toward minus
/// infinity, and its sixteen fractional bits.
pub fn split_fixed(a: i64) -> (r: (i64, u32))
    requires
        -0x4000_0000_0000_0000 <= a < 0x4000_0000_0000_0000,
    ensures
        r.0 == a as int / 65536,
        r.1 == a as int % 65536,
{
    let shifted: u64 = (a + 0x4000_0000_0000_0000) as u64;
    let q: i64 = ((shifted / 65536) as i64) - 0x4000_0000_0000;
    let f: u32 = (shifted % 65536) as u32;
    (q, f)
}

/// The whole part of a wide raw sum, saturated.
pub fn narrow_products(sum: i128) -> (r: i32)
    requires
        -0x1_0000_0000_0000_0000_0000 <= sum < 0x1_0000_0000_0000_0000_0000,
    ensures
        r == fx_of_products(sum as int),
{
    let shifted: u128 = (sum + 0x1_0000_0000_0000_0000_0000) as u128;
    let q: i128 = ((shifted / 65536) as i128) - 0x1_0000_0000_0000_0000;
    saturate_i128(q)
}

pub fn product(a: i32, b: i32) -> (r: i64)
    ensures
        r == a * b,
        -0x4000_0000_0000_0000 <= r <= 0x4000_0000_0000_0000,
{
    proof {
        lemma_product_bound(a as int, b as int, 0x8000_0000, 0x8000_0000);
    }
    (a as i64) * (b as i64)
}

pub fn fx_mul(a: i32, b: i32) -> (r: i32)
    ensures
        r == fx_mul_spec(a as int, b as int),
{
    let p = product(a, b);
    if p == 0x4000_0000_0000_0000 {
        i32::MAX
    } else {
        let (q, _f) = split_fixed(p);
        saturate_i32(q)
    }
}

pub fn fx_div(a: i32, b: i32) -> (r: i32)
    requires
        b != 0,
    ensures
        r == fx_div_spec(a as int, b as int),
{
    let negative = (a < 0) != (b < 0);
    let n: u64 = (if a < 0 { -(a as i64) } else { a as i64 }) as u64 * 65536;
    let d: u64 = (if b < 0 { -(b as i64) } else { b as i64 }) as u64;
    let q: u64 = n / d;
    assert(q <= n) by (nonlinear_arith)
        requires
            q == n / d,
            d >= 1,
    ;
    if negative {
        saturate_i32(-(q as i64))
    } else {
        saturate_i32(q as i64)
    }
}

/// Blends two small non-negative values; `t` runs from 0 (all `a`) to
/// `ONE` (all `b`).
pub fn lerp_u16(a: u16, b: u16, t: u32) -> (r: u16)
    requires
        t <= 65536,
    ensures
        r == lerp_spec(a as int, b as int, t as int),
        a <= b ==> a <= r <= b,
        b <= a ==> b <= r <= a,
{
    proof {
        lemma_lerp_bound(a as int, b as int, t as int, 65535);
        lemma_lerp_between(a as int, b as int, t as int);
    }
    let s: u64 = (a as u64) * ((65536 - t) as u64) + (b as u64) * (t as u64);
    (s / 65536) as u16
}

/// A blend lies between the values it blends.
pub proof fn lemma_lerp_between(a: int, b: int, t: int)
    requires
        0 <= t <= 65536,
    ensures
        a <= b ==> a <= lerp_spec(a, b, t) <= b,
        b <= a ==> b <= lerp_spec(a, b, t) <= a,
{
    let s = a * (65536 - t) + b * t;
    assert(s == a * 65536 + (b - a) * t) by (nonlinear_arith)
        requires
            s == a * (65536 - t) + b * t,
    ;
    if a <= b {
        assert(0 <= (b - a) * t <= (b - a) * 65536) by (nonlinear_arith)
            requires
                a <= b,
                0 <= t <= 65536,
        ;
    } else {
        assert((b - a) * 65536 <= (b - a) * t <= 0) by (nonlinear_arith)
            requires
                b <= a,
                0 <= t <= 65536,
        ;
    }
}

} // verus!
