//! Vertices, polygons, and the fixed-point sine and dot product that the
//! camera is built on.

use vstd::prelude::*;
use vstd::arithmetic::div_mod::lemma_mod_multiples_vanish;
use crate::svp::fixed::{fx_of_products, lemma_product_bound, narrow_products, ONE};

verus! {

/// A vertex. Position, texture coordinates and intensity are Q16.16.
#[derive(Clone, Copy, Debug)]
pub struct Vertex {
    pub x: i32,
    pub y: i32,
    pub z: i32,
    /// Homogeneous coordinate.
    pub w: i32,
    pub u: i32,
    pub v: i32,
    /// Colour, 5-5-5.
    pub color: u16,
    /// Lighting intensity, 0 to 1.
    pub intensity: i32,
}

/// A triangle or a quadrilateral with its material.
#[derive(Clone, Debug)]
pub struct Polygon {
    pub vertices: Vec<Vertex>,
    pub texture_id: u8,
    pub color: u16,
    pub flags: u16,
    pub z_min: i32,
    pub z_max: i32,
}

/// 180 degrees in Q16.16.
pub const HALF_TURN: i64 = 180 * 0x1_0000;

/// 360 degrees in Q16.16.
pub const FULL_TURN: i64 = 360 * 0x1_0000;

/// Bhaskara's rational approximation of the sine on the half turn,
/// `4x(180 - x) / (40500 - x(180 - x))`, with `x` in degrees as Q16.16 and
/// the result as Q16.16.
pub open spec fn half_turn_sine(x: int) -> int
    recommends
        0 <= x <= HALF_TURN,
{
    let p = x * (HALF_TURN - x);
    (4 * p * 0x1_0000) / (40500 * 0x1_0000_0000 - p)
}

/// The sine of an angle in degrees: the angle is brought into one turn,
/// and the second half of the turn mirrors the first.
pub open spec fn sin_deg_spec(a: int) -> int {
    let r = a % (FULL_TURN as int);
    if r <= HALF_TURN {
        half_turn_sine(r)
    } else {
        -half_turn_sine(r - HALF_TURN)
    }
}

/// The cosine of an angle in degrees: the sine a quarter turn on.
pub open spec fn cos_deg_spec(a: int) -> int {
    sin_deg_spec(a + 90 * 0x1_0000)
}

/// The sum of four products of fixed-point numbers, as a fixed-point
/// number.
pub open spec fn dot4_spec(a0: int, b0: int, a1: int, b1: int, a2: int, b2: int, a3: int, b3: int) -> int {
    fx_of_products(a0 * b0 + a1 * b1 + a2 * b2 + a3 * b3)
}

/// The sum of three products of fixed-point numbers, as a fixed-point
/// number.
pub open spec fn dot3_spec(a0: int, b0: int, a1: int, b1: int, a2: int, b2: int) -> int {
    fx_of_products(a0 * b0 + a1 * b1 + a2 * b2)
}

proof fn lemma_half_turn_product(x: int)
    by (nonlinear_arith)
    requires
        0 <= x <= 180 * 0x1_0000,
    ensures
        0 <= x * (180 * 0x1_0000 - x) <= 8100 * 0x1_0000_0000,
{
}

fn half_turn_sine_exec(x: i64) -> (s: i32)
    requires
        0 <= x <= HALF_TURN,
    ensures
        s == half_turn_sine(x as int),
        0 <= s <= ONE,
{
    proof {
        lemma_half_turn_product(x as int);
    }
    let p: u128 = (x as u128) * ((HALF_TURN - x) as u128);
    let num: u128 = 4 * p * 0x1_0000;
    let den: u128 = 40500 * 0x1_0000_0000 - p;
    let q: u128 = num / den;
    assert(q <= 0x1_0000) by (nonlinear_arith)
        requires
            q == num / den,
            num == 4 * p * 0x1_0000,
            den == 40500 * 0x1_0000_0000 - p,
            0 <= p <= 8100 * 0x1_0000_0000,
    ;
    q as i32
}

/// The sine of an angle given in degrees.
pub fn sin_deg(a: i32) -> (s: i32)
    ensures
        s == sin_deg_spec(a as int),
        -ONE <= s <= ONE,
{
    sin_turn((a as i64) + 0)
}

/// The cosine of an angle given in degrees.
pub fn cos_deg(a: i32) -> (c: i32)
    ensures
        c == cos_deg_spec(a as int),
        -ONE <= c <= ONE,
{
    sin_turn((a as i64) + 90 * 0x1_0000)
}

fn sin_turn(a: i64) -> (s: i32)
    requires
        -0x1_0000_0000 <= a <= 0x1_0000_0000,
    ensures
        s == sin_deg_spec(a as int),
        -ONE <= s <= ONE,
{
    // 183 full turns lift every angle in range above zero.
    let lifted: u64 = (a + 183 * FULL_TURN) as u64;
    let r: i64 = (lifted % (FULL_TURN as u64)) as i64;
    proof {
        lemma_mod_multiples_vanish(183, a as int, FULL_TURN as int);
    }
    if r <= HALF_TURN {
        half_turn_sine_exec(r)
    } else {
        -half_turn_sine_exec(r - HALF_TURN)
    }
}

pub fn dot4(a0: i32, b0: i32, a1: i32, b1: i32, a2: i32, b2: i32, a3: i32, b3: i32) -> (r: i32)
    ensures
        r == dot4_spec(a0 as int, b0 as int, a1 as int, b1 as int, a2 as int, b2 as int, a3 as int, b3 as int),
{
    proof {
        lemma_product_bound(a0 as int, b0 as int, 0x8000_0000, 0x8000_0000);
        lemma_product_bound(a1 as int, b1 as int, 0x8000_0000, 0x8000_0000);
        lemma_product_bound(a2 as int, b2 as int, 0x8000_0000, 0x8000_0000);
        lemma_product_bound(a3 as int, b3 as int, 0x8000_0000, 0x8000_0000);
    }
    let sum: i128 = (a0 as i128) * (b0 as i128) + (a1 as i128) * (b1 as i128) + (a2 as i128) * (b2 as i128)
        + (a3 as i128) * (b3 as i128);
    narrow_products(sum)
}

pub fn dot3(a0: i32, b0: i32, a1: i32, b1: i32, a2: i32, b2: i32) -> (r: i32)
    ensures
        r == dot3_spec(a0 as int, b0 as int, a1 as int, b1 as int, a2 as int, b2 as int),
{
    proof {
        lemma_product_bound(a0 as int, b0 as int, 0x8000_0000, 0x8000_0000);
        lemma_product_bound(a1 as int, b1 as int, 0x8000_0000, 0x8000_0000);
        lemma_product_bound(a2 as int, b2 as int, 0x8000_0000, 0x8000_0000);
    }
    let sum: i128 = (a0 as i128) * (b0 as i128) + (a1 as i128) * (b1 as i128) + (a2 as i128) * (b2 as i128);
    narrow_products(sum)
}

} // verus!
