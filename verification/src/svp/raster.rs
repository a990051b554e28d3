//! Screen-space geometry: facing, bounding boxes, coverage, barycentric
//! weights and the points of a line.
//!
//! Vertices here are in screen space: `x` and `y` are pixels in Q16.16.
//! A vertex covers the pixel that its coordinates round down to.

use vstd::prelude::*;
use vstd::arithmetic::div_mod::lemma_fundamental_div_mod_converse;
use crate::svp::fixed::{abs_int, clamp_i32, lemma_product_bound, saturate_i128, split_fixed, trunc_div, ONE};
use crate::svp::geometry::Vertex;

verus! {

/// The pixel that a fixed-point screen coordinate lies in.
pub open spec fn pixel_of(c: i32) -> int {
    c as int / 0x1_0000
}

pub fn pixel_coord(c: i32) -> (p: i32)
    ensures
        p == pixel_of(c),
        -0x8000 <= p < 0x8000,
{
    let (q, _f) = split_fixed(c as i64);
    q as i32
}

/// Twice the signed area of the triangle `v0 v1 v2`: the z component of
/// the cross product of its first two edges.
pub open spec fn cross_z(v0: Vertex, v1: Vertex, v2: Vertex) -> int {
    (v1.x - v0.x) * (v2.y - v0.y) - (v1.y - v0.y) * (v2.x - v0.x)
}

/// A polygon faces the viewer when its first three vertices turn
/// counter-clockwise.
pub open spec fn front_facing(verts: Seq<Vertex>) -> bool {
    verts.len() >= 3 && cross_z(verts[0], verts[1], verts[2]) > 0
}

pub open spec fn min_int(a: int, b: int) -> int {
    if a <= b {
        a
    } else {
        b
    }
}

pub open spec fn max_int(a: int, b: int) -> int {
    if a >= b {
        a
    } else {
        b
    }
}

/// Smallest pixel column among the first `n` vertices.
pub open spec fn min_pixel_x(verts: Seq<Vertex>, n: int) -> int
    decreases n,
{
    if n <= 0 {
        i32::MAX as int
    } else {
        min_int(min_pixel_x(verts, n - 1), pixel_of(verts[n - 1].x))
    }
}

/// Largest pixel column among the first `n` vertices.
pub open spec fn max_pixel_x(verts: Seq<Vertex>, n: int) -> int
    decreases n,
{
    if n <= 0 {
        i32::MIN as int
    } else {
        max_int(max_pixel_x(verts, n - 1), pixel_of(verts[n - 1].x))
    }
}

/// Smallest pixel row among the first `n` vertices.
pub open spec fn min_pixel_y(verts: Seq<Vertex>, n: int) -> int
    decreases n,
{
    if n <= 0 {
        i32::MAX as int
    } else {
        min_int(min_pixel_y(verts, n - 1), pixel_of(verts[n - 1].y))
    }
}

/// Largest pixel row among the first `n` vertices.
pub open spec fn max_pixel_y(verts: Seq<Vertex>, n: int) -> int
    decreases n,
{
    if n <= 0 {
        i32::MIN as int
    } else {
        max_int(max_pixel_y(verts, n - 1), pixel_of(verts[n - 1].y))
    }
}

/// A rectangle of pixels, both ends included. It is empty where a
/// minimum lies above its maximum.
pub struct PixelBox {
    pub min_x: int,
    pub max_x: int,
    pub min_y: int,
    pub max_y: int,
}

/// The bounding box of a polygon, cut to a viewport `(x, y, width,
/// height)`.
pub open spec fn bounding_box(verts: Seq<Vertex>, viewport: (u16, u16, u16, u16)) -> PixelBox {
    let n = verts.len() as int;
    PixelBox {
        min_x: max_int(min_pixel_x(verts, n), viewport.0 as int),
        max_x: min_int(max_pixel_x(verts, n), viewport.0 + viewport.2 - 1),
        min_y: max_int(min_pixel_y(verts, n), viewport.1 as int),
        max_y: min_int(max_pixel_y(verts, n), viewport.1 + viewport.3 - 1),
    }
}

/// The ray from pixel `(x, y)` to the right crosses the edge from `vi` to
/// `vj`: the edge spans the pixel's row, and meets it right of the pixel.
pub open spec fn edge_crosses(x: int, y: int, vi: Vertex, vj: Vertex) -> bool {
    let xi = pixel_of(vi.x);
    let yi = pixel_of(vi.y);
    let xj = pixel_of(vj.x);
    let yj = pixel_of(vj.y);
    (yi > y) != (yj > y) && if yj > yi {
        (x - xi) * (yj - yi) < (xj - xi) * (y - yi)
    } else {
        (x - xi) * (yj - yi) > (xj - xi) * (y - yi)
    }
}

/// The vertex before vertex `i`, going round the polygon.
pub open spec fn previous_index(len: int, i: int) -> int {
    if i == 0 {
        len - 1
    } else {
        i - 1
    }
}

/// The ray from `(x, y)` crosses an odd number of the first `n` edges.
pub open spec fn crossings_odd(verts: Seq<Vertex>, x: int, y: int, n: int) -> bool
    decreases n,
{
    if n <= 0 {
        false
    } else {
        crossings_odd(verts, x, y, n - 1) != edge_crosses(
            x,
            y,
            verts[n - 1],
            verts[previous_index(verts.len() as int, n - 1)],
        )
    }
}

/// Pixel `(x, y)` lies inside the polygon: a ray from it crosses the
/// outline an odd number of times.
pub open spec fn point_in_polygon(verts: Seq<Vertex>, x: int, y: int) -> bool {
    crossings_odd(verts, x, y, verts.len() as int)
}

/// The denominator of the barycentric weights: twice the signed area of
/// the triangle, in raw units.
pub open spec fn bary_denominator(v0: Vertex, v1: Vertex, v2: Vertex) -> int {
    (v1.y - v2.y) * (v0.x - v2.x) + (v2.x - v1.x) * (v0.y - v2.y)
}

/// Numerator of the weight of the first vertex at pixel `(x, y)`.
pub open spec fn bary_alpha_numerator(v1: Vertex, v2: Vertex, x: int, y: int) -> int {
    (v1.y - v2.y) * (x * 0x1_0000 - v2.x) + (v2.x - v1.x) * (y * 0x1_0000 - v2.y)
}

/// Numerator of the weight of the second vertex at pixel `(x, y)`.
pub open spec fn bary_beta_numerator(v0: Vertex, v2: Vertex, x: int, y: int) -> int {
    (v2.y - v0.y) * (x * 0x1_0000 - v2.x) + (v0.x - v2.x) * (y * 0x1_0000 - v2.y)
}

/// A ratio of raw values as a fixed-point number.
pub open spec fn ratio_spec(num: int, den: int) -> int
    recommends
        den != 0,
{
    clamp_i32(trunc_div(num * 0x1_0000, den))
}

/// The barycentric weights of pixel `(x, y)` in the triangle of the first
/// three vertices. The third is what the first two leave of 1. A
/// triangle without area has the weights 0, 0, 0.
pub open spec fn barycentric(verts: Seq<Vertex>, x: int, y: int) -> (int, int, int) {
    let d = bary_denominator(verts[0], verts[1], verts[2]);
    if d == 0 {
        (0, 0, 0)
    } else {
        let alpha = ratio_spec(bary_alpha_numerator(verts[1], verts[2], x, y), d);
        let beta = ratio_spec(bary_beta_numerator(verts[0], verts[2], x, y), d);
        (alpha, beta, clamp_i32(ONE - alpha - beta))
    }
}

/// Number of steps of the line between two pixels: the longer of its
/// two extents.
pub open spec fn line_steps(x0: int, y0: int, x1: int, y1: int) -> int {
    max_int(abs_int(x1 - x0), abs_int(y1 - y0))
}

pub open spec fn sign_of(d: int) -> int {
    if d > 0 {
        1
    } else if d < 0 {
        -1
    } else {
        0
    }
}

/// How far a line has come along an axis of extent `extent` after `i` of
/// `n` steps: `i * extent / n` rounded to the nearest integer.
pub open spec fn line_advance(i: int, extent: int, n: int) -> int
    recommends
        n > 0,
{
    (2 * i * extent + n) / (2 * n)
}

/// Point `i` of the line from `(x0, y0)` to `(x1, y1)`.
pub open spec fn line_point(x0: int, y0: int, x1: int, y1: int, i: int) -> (int, int) {
    let n = line_steps(x0, y0, x1, y1);
    if n == 0 {
        (x0, y0)
    } else {
        (
            x0 + sign_of(x1 - x0) * line_advance(i, abs_int(x1 - x0), n),
            y0 + sign_of(y1 - y0) * line_advance(i, abs_int(y1 - y0), n),
        )
    }
}

pub fn abs_int_exec(v: i32) -> (r: i32)
    requires
        v > i32::MIN,
    ensures
        r == abs_int(v as int),
{
    if v < 0 {
        -v
    } else {
        v
    }
}

/// The quotient of two wide values, rounded toward zero.
pub fn trunc_div_wide(n: i128, d: i128) -> (q: i128)
    requires
        d != 0,
        -0x1_0000_0000_0000_0000_0000_0000 <= n <= 0x1_0000_0000_0000_0000_0000_0000,
        -0x1_0000_0000_0000_0000_0000_0000 <= d <= 0x1_0000_0000_0000_0000_0000_0000,
    ensures
        q == trunc_div(n as int, d as int),
        abs_int(q as int) <= abs_int(n as int),
{
    let negative = (n < 0) != (d < 0);
    let un: u128 = (if n < 0 { -n } else { n }) as u128;
    let ud: u128 = (if d < 0 { -d } else { d }) as u128;
    let uq: u128 = un / ud;
    assert(uq <= un) by (nonlinear_arith)
        requires
            uq == un / ud,
            ud >= 1,
    ;
    if negative {
        -(uq as i128)
    } else {
        uq as i128
    }
}

/// A ratio of raw values as a fixed-point number.
pub fn ratio(num: i128, den: i128) -> (r: i32)
    requires
        den != 0,
        -0x1_0000_0000_0000_0000_0000 <= num <= 0x1_0000_0000_0000_0000_0000,
        -0x1_0000_0000_0000_0000_0000 <= den <= 0x1_0000_0000_0000_0000_0000,
    ensures
        r == ratio_spec(num as int, den as int),
{
    saturate_i128(trunc_div_wide(num * 0x1_0000, den))
}

/// The raw product of two differences of screen values.
pub fn diff_product(a: i64, b: i64, c: i64, d: i64) -> (r: i128)
    requires
        -0x1_0000_0000 <= a <= 0x1_0000_0000,
        -0x1_0000_0000 <= b <= 0x1_0000_0000,
        -0x1_0000_0000 <= c <= 0x1_0000_0000,
        -0x1_0000_0000 <= d <= 0x1_0000_0000,
    ensures
        r == (a - b) * (c - d),
        -0x4_0000_0000_0000_0000 <= r <= 0x4_0000_0000_0000_0000,
{
    proof {
        lemma_product_bound(a - b, c - d, 0x2_0000_0000, 0x2_0000_0000);
    }
    ((a - b) as i128) * ((c - d) as i128)
}

/// Whether a polygon in screen space faces the viewer.
pub fn is_front_facing_screen(vertices: &Vec<Vertex>) -> (r: bool)
    ensures
        r == front_facing(vertices@),
{
    if vertices.len() < 3 {
        return false;
    }
    let v0 = vertices[0];
    let v1 = vertices[1];
    let v2 = vertices[2];
    let a = diff_product(v1.x as i64, v0.x as i64, v2.y as i64, v0.y as i64);
    let b = diff_product(v1.y as i64, v0.y as i64, v2.x as i64, v0.x as i64);
    a - b > 0
}

/// Whether the ray from `(x, y)` crosses the edge from `vi` to `vj`.
pub fn edge_crossing(x: i32, y: i32, vi: &Vertex, vj: &Vertex) -> (r: bool)
    requires
        -0x1_0000 <= x <= 0x1_0000,
        -0x1_0000 <= y <= 0x1_0000,
    ensures
        r == edge_crosses(x as int, y as int, *vi, *vj),
{
    let xi = pixel_coord(vi.x) as i64;
    let yi = pixel_coord(vi.y) as i64;
    let xj = pixel_coord(vj.x) as i64;
    let yj = pixel_coord(vj.y) as i64;
    let x = x as i64;
    let y = y as i64;
    if (yi > y) != (yj > y) {
        let lhs = diff_product(x, xi, yj, yi);
        let rhs = diff_product(xj, xi, y, yi);
        if yj > yi {
            lhs < rhs
        } else {
            lhs > rhs
        }
    } else {
        false
    }
}

/// Whether pixel `(x, y)` lies inside a polygon in screen space.
pub fn point_inside(x: i32, y: i32, vertices: &Vec<Vertex>) -> (r: bool)
    requires
        -0x1_0000 <= x <= 0x1_0000,
        -0x1_0000 <= y <= 0x1_0000,
    ensures
        r == point_in_polygon(vertices@, x as int, y as int),
{
    let n = vertices.len();
    if n == 0 {
        return false;
    }
    let mut inside = false;
    let mut j: usize = n - 1;
    let mut i: usize = 0;
    while i < n
        invariant
            i <= n,
            n == vertices@.len(),
            n > 0,
            j == previous_index(n as int, i as int) || i == n,
            j < n,
            -0x1_0000 <= x <= 0x1_0000,
            -0x1_0000 <= y <= 0x1_0000,
            inside == crossings_odd(vertices@, x as int, y as int, i as int),
        decreases n - i,
    {
        if edge_crossing(x, y, &vertices[i], &vertices[j]) {
            inside = !inside;
        }
        j = i;
        i = i + 1;
    }
    inside
}

/// The barycentric weights of pixel `(x, y)` in the triangle of the first
/// three vertices.
pub fn barycentric_weights(x: i32, y: i32, vertices: &Vec<Vertex>) -> (r: (i32, i32, i32))
    requires
        vertices@.len() >= 3,
        0 <= x < 0x1_0000,
        0 <= y < 0x1_0000,
    ensures
        r.0 == barycentric(vertices@, x as int, y as int).0,
        r.1 == barycentric(vertices@, x as int, y as int).1,
        r.2 == barycentric(vertices@, x as int, y as int).2,
{
    let v0 = vertices[0];
    let v1 = vertices[1];
    let v2 = vertices[2];
    let xf: i64 = (x as i64) * 0x1_0000;
    let yf: i64 = (y as i64) * 0x1_0000;
    let denom: i128 = diff_product(v1.y as i64, v2.y as i64, v0.x as i64, v2.x as i64) + diff_product(
        v2.x as i64,
        v1.x as i64,
        v0.y as i64,
        v2.y as i64,
    );
    if denom == 0 {
        return (0, 0, 0);
    }
    let alpha_num: i128 = diff_product(v1.y as i64, v2.y as i64, xf, v2.x as i64) + diff_product(
        v2.x as i64,
        v1.x as i64,
        yf,
        v2.y as i64,
    );
    let beta_num: i128 = diff_product(v2.y as i64, v0.y as i64, xf, v2.x as i64) + diff_product(
        v0.x as i64,
        v2.x as i64,
        yf,
        v2.y as i64,
    );
    let alpha = ratio(alpha_num, denom);
    let beta = ratio(beta_num, denom);
    let gamma = saturate_i128((ONE as i128) - (alpha as i128) - (beta as i128));
    (alpha, beta, gamma)
}

/// The bounding box of a polygon in screen space, cut to a viewport.
pub fn bounding_box_of(vertices: &Vec<Vertex>, viewport: (u16, u16, u16, u16)) -> (r: (i32, i32, i32, i32))
    ensures
        r.0 == bounding_box(vertices@, viewport).min_x,
        r.1 == bounding_box(vertices@, viewport).max_x,
        r.2 == bounding_box(vertices@, viewport).min_y,
        r.3 == bounding_box(vertices@, viewport).max_y,
        0 <= r.0,
        r.1 < 0x2_0000,
        0 <= r.2,
        r.3 < 0x2_0000,
{
    let mut min_x: i32 = i32::MAX;
    let mut max_x: i32 = i32::MIN;
    let mut min_y: i32 = i32::MAX;
    let mut max_y: i32 = i32::MIN;
    let n = vertices.len();
    let mut i: usize = 0;
    while i < n
        invariant
            i <= n,
            n == vertices@.len(),
            min_x == min_pixel_x(vertices@, i as int),
            max_x == max_pixel_x(vertices@, i as int),
            min_y == min_pixel_y(vertices@, i as int),
            max_y == max_pixel_y(vertices@, i as int),
        decreases n - i,
    {
        let x = pixel_coord(vertices[i].x);
        let y = pixel_coord(vertices[i].y);
        if x < min_x {
            min_x = x;
        }
        if x > max_x {
            max_x = x;
        }
        if y < min_y {
            min_y = y;
        }
        if y > max_y {
            max_y = y;
        }
        i = i + 1;
    }
    let (vp_x, vp_y, vp_w, vp_h) = viewport;
    let right: i32 = (vp_x as i32) + (vp_w as i32) - 1;
    let bottom: i32 = (vp_y as i32) + (vp_h as i32) - 1;
    if min_x < vp_x as i32 {
        min_x = vp_x as i32;
    }
    if max_x > right {
        max_x = right;
    }
    if min_y < vp_y as i32 {
        min_y = vp_y as i32;
    }
    if max_y > bottom {
        max_y = bottom;
    }
    (min_x, max_x, min_y, max_y)
}

/// One step of a line along an axis: the error term takes twice the
/// extent, and a full step of the axis is paid out of it.
pub proof fn lemma_line_step(n: int, extent: int, i: int, k: int, e: int)
    by (nonlinear_arith)
    requires
        n > 0,
        0 <= extent <= n,
        2 * n * k + e == 2 * i * extent + n,
        0 <= e < 2 * n,
    ensures
        e + 2 * extent >= 2 * n ==> 2 * n * (k + 1) + (e + 2 * extent - 2 * n) == 2 * (i + 1) * extent + n && 0
            <= e + 2 * extent - 2 * n < 2 * n,
        e + 2 * extent < 2 * n ==> 2 * n * k + (e + 2 * extent) == 2 * (i + 1) * extent + n,
{
}

/// An error term and a count that add up as the line's equation asks are
/// the advance of the line.
pub proof fn lemma_line_advance(n: int, extent: int, i: int, k: int, e: int)
    requires
        n > 0,
        2 * n * k + e == 2 * i * extent + n,
        0 <= e < 2 * n,
    ensures
        k == line_advance(i, extent, n),
{
    assert(2 * i * extent + n == k * (2 * n) + e) by (nonlinear_arith)
        requires
            2 * n * k + e == 2 * i * extent + n,
    ;
    lemma_fundamental_div_mod_converse(2 * i * extent + n, 2 * n, k, e);
}

/// Which way the pixel `(x, y)` lies of the edge from the pixel of `vi`
/// to the pixel of `vj`: positive on one side, negative on the other,
/// zero on the line through them.
pub open spec fn turn(x: int, y: int, vi: Vertex, vj: Vertex) -> int {
    (pixel_of(vj.x) - pixel_of(vi.x)) * (y - pixel_of(vi.y)) - (x - pixel_of(vi.x)) * (pixel_of(vj.y) - pixel_of(
        vi.y,
    ))
}

/// The pixel `(x, y)` lies strictly inside the triangle of the pixels
/// of three vertices: on the same side of all three edges, and on
/// none of them.
pub open spec fn strictly_inside(verts: Seq<Vertex>, x: int, y: int) -> bool {
    &&& verts.len() == 3
    &&& (turn(x, y, verts[0], verts[2]) > 0 && turn(x, y, verts[1], verts[0]) > 0 && turn(
        x,
        y,
        verts[2],
        verts[1],
    ) > 0) || (turn(x, y, verts[0], verts[2]) < 0 && turn(x, y, verts[1], verts[0]) < 0 && turn(
        x,
        y,
        verts[2],
        verts[1],
    ) < 0)
}

/// A turn, written from the pixel as origin.
proof fn lemma_turn_from_pixel(ix: int, iy: int, jx: int, jy: int, x: int, y: int)
    by (nonlinear_arith)
    ensures
        (jx - ix) * (y - iy) - (x - ix) * (jy - iy) == (ix - x) * (jy - y) - (jx - x) * (iy - y),
{
}

/// Three products of three pairs cancel in turn.
proof fn lemma_products_cancel(ua: int, va: int, ub: int, vb: int, uc: int, vc: int)
    ensures
        (uc * vb - ub * vc) * va + (ub * va - ua * vb) * vc + (ua * vc - uc * va) * vb == 0,
{
    assert((uc * vb - ub * vc) * va == uc * vb * va - ub * vc * va) by (nonlinear_arith);
    assert((ub * va - ua * vb) * vc == ub * va * vc - ua * vb * vc) by (nonlinear_arith);
    assert((ua * vc - uc * va) * vb == ua * vc * vb - uc * va * vb) by (nonlinear_arith);
    assert(uc * vb * va == uc * va * vb) by (nonlinear_arith);
    assert(ub * vc * va == ub * va * vc) by (nonlinear_arith);
    assert(ua * vb * vc == ua * vc * vb) by (nonlinear_arith);
}

/// The three turns of a pixel, each weighted by how far the vertex
/// opposite its edge lies above the pixel's row, cancel.
proof fn lemma_turns_balance(ax: int, ay: int, bx: int, by: int, cx: int, cy: int, x: int, y: int)
    ensures
        ((bx - cx) * (y - cy) - (x - cx) * (by - cy)) * (ay - y) + ((ax - bx) * (y - by) - (x - bx) * (ay - by)) * (cy
            - y) + ((cx - ax) * (y - ay) - (x - ax) * (cy - ay)) * (by - y) == 0,
{
    lemma_turn_from_pixel(cx, cy, bx, by, x, y);
    lemma_turn_from_pixel(bx, by, ax, ay, x, y);
    lemma_turn_from_pixel(ax, ay, cx, cy, x, y);
    lemma_products_cancel(ax - x, ay - y, bx - x, by - y, cx - x, cy - y);
}

/// A product of a value of one sign with a difference tells the sign
/// of the difference.
proof fn lemma_signed_product(t: int, d: int)
    by (nonlinear_arith)
    requires
        t != 0,
    ensures
        (t > 0 && d > 0) ==> t * d > 0,
        (t > 0 && d <= 0) ==> t * d <= 0,
        (t < 0 && d > 0) ==> t * d < 0,
        (t < 0 && d <= 0) ==> t * d >= 0,
        t * d == 0 ==> d == 0,
{
}

/// A pixel strictly inside a triangle passes the crossing test: of the
/// two edges that pass its row, the ray to its right meets one.
pub proof fn lemma_strictly_inside_is_covered(verts: Seq<Vertex>, x: int, y: int)
    requires
        strictly_inside(verts, x, y),
    ensures
        point_in_polygon(verts, x, y),
{
    let ax = pixel_of(verts[0].x);
    let ay = pixel_of(verts[0].y);
    let bx = pixel_of(verts[1].x);
    let by = pixel_of(verts[1].y);
    let cx = pixel_of(verts[2].x);
    let cy = pixel_of(verts[2].y);
    let t0 = turn(x, y, verts[0], verts[2]);
    let t1 = turn(x, y, verts[1], verts[0]);
    let t2 = turn(x, y, verts[2], verts[1]);
    lemma_turns_balance(ax, ay, bx, by, cx, cy, x, y);
    assert(t2 * (ay - y) + t1 * (cy - y) + t0 * (by - y) == 0);
    lemma_signed_product(t2, ay - y);
    lemma_signed_product(t1, cy - y);
    lemma_signed_product(t0, by - y);
    let above_a = ay > y;
    let above_b = by > y;
    let above_c = cy > y;
    assert(!(above_a && above_b && above_c));
    if !above_a && !above_b && !above_c {
        assert(ay == y && by == y && cy == y);
        assert(t0 == 0) by (nonlinear_arith)
            requires
                t0 == (cx - ax) * (y - ay) - (x - ax) * (cy - ay),
                ay == y,
                cy == y,
        ;
        assert(false);
    }
    let e0 = edge_crosses(x, y, verts[0], verts[2]);
    let e1 = edge_crosses(x, y, verts[1], verts[0]);
    let e2 = edge_crosses(x, y, verts[2], verts[1]);
    assert(previous_index(3, 0) == 2 && previous_index(3, 1) == 0 && previous_index(3, 2) == 1);
    assert(crossings_odd(verts, x, y, 0) == false);
    assert(crossings_odd(verts, x, y, 1) == (crossings_odd(verts, x, y, 0) != e0));
    assert(crossings_odd(verts, x, y, 2) == (crossings_odd(verts, x, y, 1) != e1));
    assert(crossings_odd(verts, x, y, 3) == (crossings_odd(verts, x, y, 2) != e2));
    if t0 > 0 {
        assert(e0 == (above_a != above_c && cy > ay));
        assert(e1 == (above_b != above_a && ay > by));
        assert(e2 == (above_c != above_b && by > cy));
    } else {
        assert(e0 == (above_a != above_c && !(cy > ay)));
        assert(e1 == (above_b != above_a && !(ay > by)));
        assert(e2 == (above_c != above_b && !(by > cy)));
    }
}

/// Three products of three pairs cancel in turn, the other way round.
proof fn lemma_products_cancel_across(ua: int, va: int, ub: int, vb: int, uc: int, vc: int)
    ensures
        (uc * vb - ub * vc) * ua + (ub * va - ua * vb) * uc + (ua * vc - uc * va) * ub == 0,
{
    assert((uc * vb - ub * vc) * ua == uc * vb * ua - ub * vc * ua) by (nonlinear_arith);
    assert((ub * va - ua * vb) * uc == ub * va * uc - ua * vb * uc) by (nonlinear_arith);
    assert((ua * vc - uc * va) * ub == ua * vc * ub - uc * va * ub) by (nonlinear_arith);
    assert(uc * vb * ua == ua * vb * uc) by (nonlinear_arith);
    assert(ub * vc * ua == ua * vc * ub) by (nonlinear_arith);
    assert(ub * va * uc == uc * va * ub) by (nonlinear_arith);
}

/// Values of one sign, weighted by distances of one strict sign, do
/// not cancel.
proof fn lemma_no_balance_on_one_side(t0: int, t1: int, t2: int, d0: int, d1: int, d2: int)
    by (nonlinear_arith)
    requires
        (t0 > 0 && t1 > 0 && t2 > 0) || (t0 < 0 && t1 < 0 && t2 < 0),
        (d0 > 0 && d1 > 0 && d2 > 0) || (d0 < 0 && d1 < 0 && d2 < 0),
    ensures
        t0 * d0 + t1 * d1 + t2 * d2 != 0,
{
}

/// A pixel strictly inside a triangle lies within the columns and rows
/// that the triangle's vertices span.
pub proof fn lemma_strictly_inside_is_within(verts: Seq<Vertex>, x: int, y: int)
    requires
        strictly_inside(verts, x, y),
    ensures
        min_pixel_x(verts, 3) <= x <= max_pixel_x(verts, 3),
        min_pixel_y(verts, 3) <= y <= max_pixel_y(verts, 3),
{
    let ax = pixel_of(verts[0].x);
    let ay = pixel_of(verts[0].y);
    let bx = pixel_of(verts[1].x);
    let by = pixel_of(verts[1].y);
    let cx = pixel_of(verts[2].x);
    let cy = pixel_of(verts[2].y);
    let t0 = turn(x, y, verts[0], verts[2]);
    let t1 = turn(x, y, verts[1], verts[0]);
    let t2 = turn(x, y, verts[2], verts[1]);
    lemma_turn_from_pixel(cx, cy, bx, by, x, y);
    lemma_turn_from_pixel(bx, by, ax, ay, x, y);
    lemma_turn_from_pixel(ax, ay, cx, cy, x, y);
    lemma_products_cancel(ax - x, ay - y, bx - x, by - y, cx - x, cy - y);
    lemma_products_cancel_across(ax - x, ay - y, bx - x, by - y, cx - x, cy - y);
    assert(t0 * (by - y) + t1 * (cy - y) + t2 * (ay - y) == 0);
    assert(t0 * (bx - x) + t1 * (cx - x) + t2 * (ax - x) == 0);
    if (by > y && cy > y && ay > y) || (by < y && cy < y && ay < y) {
        lemma_no_balance_on_one_side(t0, t1, t2, by - y, cy - y, ay - y);
    }
    if (bx > x && cx > x && ax > x) || (bx < x && cx < x && ax < x) {
        lemma_no_balance_on_one_side(t0, t1, t2, bx - x, cx - x, ax - x);
    }
    reveal_with_fuel(min_pixel_x, 4);
    reveal_with_fuel(max_pixel_x, 4);
    reveal_with_fuel(min_pixel_y, 4);
    reveal_with_fuel(max_pixel_y, 4);
}

/// The pixel that the centre of a triangle's three pixels lies in.
pub open spec fn centroid_pixel(verts: Seq<Vertex>) -> (int, int) {
    (
        (pixel_of(verts[0].x) + pixel_of(verts[1].x) + pixel_of(verts[2].x)) / 3,
        (pixel_of(verts[0].y) + pixel_of(verts[1].y) + pixel_of(verts[2].y)) / 3,
    )
}

/// Twice the area of the triangle of the pixels of three vertices,
/// with the sign of its winding.
pub open spec fn twice_pixel_area(verts: Seq<Vertex>) -> int {
    (pixel_of(verts[2].x) - pixel_of(verts[0].x)) * (pixel_of(verts[1].y) - pixel_of(verts[0].y)) - (pixel_of(
        verts[1].x,
    ) - pixel_of(verts[0].x)) * (pixel_of(verts[2].y) - pixel_of(verts[0].y))
}

/// How far an edge reaches along both axes together.
pub open spec fn edge_reach(vi: Vertex, vj: Vertex) -> int {
    abs_int(pixel_of(vj.x) - pixel_of(vi.x)) + abs_int(pixel_of(vj.y) - pixel_of(vi.y))
}

/// A triangle with room for a pixel at its centre: twice its area is
/// more than twice the reach of each of its edges.
pub open spec fn roomy(verts: Seq<Vertex>) -> bool {
    &&& verts.len() == 3
    &&& abs_int(twice_pixel_area(verts)) > 2 * edge_reach(verts[0], verts[2])
    &&& abs_int(twice_pixel_area(verts)) > 2 * edge_reach(verts[1], verts[0])
    &&& abs_int(twice_pixel_area(verts)) > 2 * edge_reach(verts[2], verts[1])
}

/// Three times the turn of the centre's pixel about an edge is the
/// turn of the third vertex, but for what rounding took away.
proof fn lemma_turn_at_centre(
    ix: int,
    iy: int,
    jx: int,
    jy: int,
    kx: int,
    ky: int,
    qx: int,
    qy: int,
    rx: int,
    ry: int,
)
    requires
        ix + jx + kx == 3 * qx + rx,
        iy + jy + ky == 3 * qy + ry,
    ensures
        3 * ((jx - ix) * (qy - iy) - (qx - ix) * (jy - iy)) == ((jx - ix) * (ky - iy) - (kx - ix) * (jy - iy)) - (jx
            - ix) * ry + rx * (jy - iy),
{
    let dx = jx - ix;
    let dy = jy - iy;
    assert(3 * (dx * (qy - iy)) == dx * (3 * qy - 3 * iy)) by (nonlinear_arith);
    assert(3 * ((qx - ix) * dy) == (3 * qx - 3 * ix) * dy) by (nonlinear_arith);
    assert(3 * qy - 3 * iy == dy + (ky - iy) - ry);
    assert(3 * qx - 3 * ix == dx + (kx - ix) - rx);
    assert(dx * (dy + (ky - iy) - ry) == dx * dy + dx * (ky - iy) - dx * ry) by (nonlinear_arith);
    assert((dx + (kx - ix) - rx) * dy == dx * dy + (kx - ix) * dy - rx * dy) by (nonlinear_arith);
}

/// What rounding takes away stays within twice the edge's reach.
proof fn lemma_rounding_is_small(dx: int, dy: int, rx: int, ry: int)
    by (nonlinear_arith)
    requires
        0 <= rx <= 2,
        0 <= ry <= 2,
    ensures
        -2 * (abs_int(dx) + abs_int(dy)) <= rx * dy - dx * ry <= 2 * (abs_int(dx) + abs_int(dy)),
{
}

/// The winding of a triangle is the same from each of its vertices.
proof fn lemma_winding_from_each_vertex(ax: int, ay: int, bx: int, by: int, cx: int, cy: int)
    by (nonlinear_arith)
    ensures
        (ax - bx) * (cy - by) - (cx - bx) * (ay - by) == (cx - ax) * (by - ay) - (bx - ax) * (cy - ay),
        (bx - cx) * (ay - cy) - (ax - cx) * (by - cy) == (cx - ax) * (by - ay) - (bx - ax) * (cy - ay),
{
}

/// The pixel at the centre of a roomy triangle lies strictly inside
/// it.
pub proof fn lemma_centroid_is_strictly_inside(verts: Seq<Vertex>)
    requires
        roomy(verts),
    ensures
        strictly_inside(verts, centroid_pixel(verts).0, centroid_pixel(verts).1),
{
    let ax = pixel_of(verts[0].x);
    let ay = pixel_of(verts[0].y);
    let bx = pixel_of(verts[1].x);
    let by = pixel_of(verts[1].y);
    let cx = pixel_of(verts[2].x);
    let cy = pixel_of(verts[2].y);
    let qx = (ax + bx + cx) / 3;
    let qy = (ay + by + cy) / 3;
    let rx = (ax + bx + cx) % 3;
    let ry = (ay + by + cy) % 3;
    let w = twice_pixel_area(verts);
    lemma_winding_from_each_vertex(ax, ay, bx, by, cx, cy);
    lemma_turn_at_centre(ax, ay, cx, cy, bx, by, qx, qy, rx, ry);
    lemma_turn_at_centre(bx, by, ax, ay, cx, cy, qx, qy, rx, ry);
    lemma_turn_at_centre(cx, cy, bx, by, ax, ay, qx, qy, rx, ry);
    lemma_rounding_is_small(cx - ax, cy - ay, rx, ry);
    lemma_rounding_is_small(ax - bx, ay - by, rx, ry);
    lemma_rounding_is_small(bx - cx, by - cy, rx, ry);
    let t0 = turn(qx, qy, verts[0], verts[2]);
    let t1 = turn(qx, qy, verts[1], verts[0]);
    let t2 = turn(qx, qy, verts[2], verts[1]);
    assert(3 * t0 == w - (cx - ax) * ry + rx * (cy - ay));
    assert(3 * t1 == w - (ax - bx) * ry + rx * (ay - by));
    assert(3 * t2 == w - (bx - cx) * ry + rx * (by - cy));
}

} // verus!
