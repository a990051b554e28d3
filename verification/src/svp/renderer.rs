//! The rasterizer: culling, coverage, depth test, shading and fog for
//! polygons, and depth-tested lines, drawn into the back buffer.

use vstd::prelude::*;
use crate::svp::camera::Camera;
use crate::svp::fixed::{
    abs_int,
    clamp_i32,
    clamp_int,
    fx_div,
    fx_div_spec,
    fx_mul,
    fx_mul_spec,
    lemma_lerp_between,
    lemma_product_bound,
    lerp_spec,
    saturate_i32,
    split_fixed,
    ONE,
};
use crate::svp::framebuffer::{pixel_index, DepthState, FrameBuffer, FrameState, ZBuffer, FAR_DEPTH};
use crate::svp::geometry::{dot3, dot3_spec, Vertex};
use crate::svp::raster::{
    abs_int_exec,
    barycentric,
    barycentric_weights,
    bounding_box,
    bounding_box_of,
    diff_product,
    front_facing,
    is_front_facing_screen,
    lemma_line_advance,
    lemma_line_step,
    line_point,
    line_steps,
    pixel_coord,
    pixel_of,
    point_in_polygon,
    point_inside,
    ratio,
    ratio_spec,
    sign_of,
    strictly_inside,
    centroid_pixel,
    roomy,
};
use crate::svp::texture::{blend_rgb, blue_of, green_of, interpolate_rgb, red_of, rgb_of, MISSING_TEXTURE_COLOR};
use crate::svp::texture_cache::{bump, bumped};
use crate::svp::texture_unit::{TextureUnit, UnitState};

verus! {

/// Width of the display in pixels.
pub const SCREEN_WIDTH: u16 = 320;

/// Height of the display in pixels.
pub const SCREEN_HEIGHT: u16 = 224;

/// Squared length, in raw units, below which a line counts as a point.
pub const MIN_LENGTH_SQ: i128 = 429_497;

#[derive(Clone, Copy, Debug, PartialEq, Eq, Structural)]
pub enum RenderMode {
    Wireframe,
    Solid,
    Textured,
    TexturedLight,
}

/// The reciprocal of a homogeneous coordinate; of zero, 1.
pub open spec fn inverse_w(w: int) -> int {
    if w != 0 {
        fx_div_spec(ONE as int, w)
    } else {
        ONE as int
    }
}

/// The texture coordinates at barycentric weights, perspective-correct:
/// `u/w`, `v/w` and `1/w` are interpolated and the first two divided by
/// the third. None where the interpolated `1/w` is zero.
pub open spec fn perspective_uv(weights: (int, int, int), verts: Seq<Vertex>) -> Option<(int, int)> {
    let w0 = inverse_w(verts[0].w as int);
    let w1 = inverse_w(verts[1].w as int);
    let w2 = inverse_w(verts[2].w as int);
    let inv_w = dot3_spec(weights.0, w0, weights.1, w1, weights.2, w2);
    if inv_w == 0 {
        None
    } else {
        let u_over_w = dot3_spec(
            weights.0,
            fx_mul_spec(verts[0].u as int, w0),
            weights.1,
            fx_mul_spec(verts[1].u as int, w1),
            weights.2,
            fx_mul_spec(verts[2].u as int, w2),
        );
        let v_over_w = dot3_spec(
            weights.0,
            fx_mul_spec(verts[0].v as int, w0),
            weights.1,
            fx_mul_spec(verts[1].v as int, w1),
            weights.2,
            fx_mul_spec(verts[2].v as int, w2),
        );
        Some((fx_div_spec(u_over_w, inv_w), fx_div_spec(v_over_w, inv_w)))
    }
}

/// The depth at barycentric weights: linear in the vertex depths.
pub open spec fn depth_at_weights(weights: (int, int, int), verts: Seq<Vertex>) -> int {
    dot3_spec(weights.0, verts[0].z as int, weights.1, verts[1].z as int, weights.2, verts[2].z as int)
}

/// The lighting intensity at barycentric weights, kept within 0 and 1.
pub open spec fn intensity_at_weights(weights: (int, int, int), verts: Seq<Vertex>) -> int {
    clamp_int(
        dot3_spec(
            weights.0,
            verts[0].intensity as int,
            weights.1,
            verts[1].intensity as int,
            weights.2,
            verts[2].intensity as int,
        ),
        0,
        ONE as int,
    )
}

/// A colour with each channel scaled by a factor from 0 to 1.
pub open spec fn scaled_color(c: u16, factor: int) -> u16 {
    rgb_of((red_of(c) * factor) / 0x1_0000, (green_of(c) * factor) / 0x1_0000, (blue_of(c) * factor) / 0x1_0000)
}

/// How much fog lies on a pixel of a depth: nothing before `start`, all
/// from `end` on, linear between. Where both are one depth, the fog sets
/// in there at once.
pub open spec fn fog_factor(depth: int, start: int, end: int) -> int {
    if end == start {
        if depth >= start {
            ONE as int
        } else {
            0
        }
    } else {
        clamp_int(fx_div_spec(clamp_i32(depth - start), clamp_i32(end - start)), 0, ONE as int)
    }
}

/// The depth of the line from `v1` to `v2` at pixel `(x, y)`: the pixel
/// is projected onto the segment, and the depth blended linearly between
/// the ends. A line shorter than a hundredth of a pixel has the depth of
/// its start.
pub open spec fn line_depth(v1: Vertex, v2: Vertex, x: int, y: int) -> int {
    let dx = v2.x - v1.x;
    let dy = v2.y - v1.y;
    let length_sq = dx * dx + dy * dy;
    if length_sq < MIN_LENGTH_SQ {
        v1.z as int
    } else {
        let t = clamp_int(
            ratio_spec((x * 0x1_0000 - v1.x) * dx + (y * 0x1_0000 - v1.y) * dy, length_sq),
            0,
            ONE as int,
        );
        lerp_spec(v1.z as int, v2.z as int, t)
    }
}

/// A viewport coordinate out of a normalized device coordinate.
pub open spec fn viewport_x(ndc: int, origin: int, extent: int) -> int {
    clamp_i32(((ndc + ONE) / 2) * extent + origin * 0x1_0000)
}

/// A viewport coordinate out of a normalized device coordinate on the
/// axis that points down on the screen and up in space.
pub open spec fn viewport_y(ndc: int, origin: int, extent: int) -> int {
    clamp_i32((ONE - (ndc + ONE) / 2) * extent + origin * 0x1_0000)
}

/// A counter advanced by `n`, which stops at the top of its range.
pub open spec fn advanced(c: u32, n: int) -> u32 {
    if c + n > u32::MAX {
        u32::MAX
    } else {
        (c + n) as u32
    }
}

/// The renderer as contracts see it.
pub struct RendererState {
    pub framebuffer: FrameState,
    pub zbuffer: DepthState,
    pub camera: Camera,
    pub viewport: (u16, u16, u16, u16),
    pub render_mode: RenderMode,
    pub fog_enabled: bool,
    pub fog_color: u16,
    pub fog_start: i32,
    pub fog_end: i32,
    pub light_direction: Seq<i32>,
    pub ambient_light: i32,
    pub diffuse_light: i32,
    pub polygon_count: u32,
    pub vertex_count: u32,
    pub triangle_count: u32,
    pub quad_count: u32,
}

impl RendererState {
    /// A vertex taken from world space to the screen: the camera's
    /// transform, then the viewport map with the y axis flipped.
    pub open spec fn screen_of(self, v: Vertex) -> Vertex {
        let t = self.camera.transformed(v);
        Vertex {
            x: viewport_x(t.x as int, self.viewport.0 as int, self.viewport.2 as int) as i32,
            y: viewport_y(t.y as int, self.viewport.1 as int, self.viewport.3 as int) as i32,
            ..t
        }
    }

    pub open spec fn screen_vertices(self, verts: Seq<Vertex>) -> Seq<Vertex> {
        Seq::new(verts.len(), |i: int| self.screen_of(verts[i]))
    }

    /// The colour of a textured pixel: the bound texture sampled at the
    /// perspective-correct coordinates, lit by the interpolated intensity
    /// in the lit mode; a marker colour where the coordinates do not
    /// exist.
    pub open spec fn textured_color(self, weights: (int, int, int), verts: Seq<Vertex>, unit: UnitState) -> u16 {
        match perspective_uv(weights, verts) {
            None => MISSING_TEXTURE_COLOR,
            Some(uv) => {
                let c = unit.sampled(uv.0, uv.1);
                if self.render_mode == RenderMode::TexturedLight {
                    scaled_color(c, intensity_at_weights(weights, verts))
                } else {
                    c
                }
            },
        }
    }

    /// The colour of a pixel before fog, by render mode.
    pub open spec fn shaded_color(
        self,
        weights: (int, int, int),
        verts: Seq<Vertex>,
        unit: UnitState,
        color: u16,
    ) -> u16 {
        match self.render_mode {
            RenderMode::Wireframe => color,
            RenderMode::Solid => color,
            _ => self.textured_color(weights, verts, unit),
        }
    }

    /// The colour of a pixel after fog.
    pub open spec fn fogged_color(self, c: u16, depth: int) -> u16 {
        if self.fog_enabled {
            blend_rgb(c, self.fog_color, fog_factor(depth, self.fog_start as int, self.fog_end as int))
        } else {
            c
        }
    }

    /// The buffers after a pixel met the depth test: one that passes is
    /// drawn, and leaves its depth where the depth buffer stores.
    pub open spec fn plotted(self, x: int, y: int, depth: i32, color: u16) -> RendererState {
        if self.zbuffer.passes(x, y, depth) {
            RendererState {
                zbuffer: self.zbuffer.tested(x, y, depth),
                framebuffer: self.framebuffer.drawn(x, y, color),
                ..self
            }
        } else {
            self
        }
    }

    /// What a polygon in screen space does to pixel `(x, y)`.
    pub open spec fn polygon_pixel(self, verts: Seq<Vertex>, unit: UnitState, color: u16, x: int, y: int) -> RendererState {
        if self.framebuffer.contains(x, y) && point_in_polygon(verts, x, y) {
            let weights = barycentric(verts, x, y);
            let depth = depth_at_weights(weights, verts);
            self.plotted(
                x,
                y,
                depth as i32,
                self.fogged_color(self.shaded_color(weights, verts, unit, color), depth),
            )
        } else {
            self
        }
    }

    /// What a polygon does to the pixels `[x_from, x_to)` of row `y`.
    pub open spec fn polygon_row(
        self,
        verts: Seq<Vertex>,
        unit: UnitState,
        color: u16,
        y: int,
        x_from: int,
        x_to: int,
    ) -> RendererState
        decreases x_to - x_from,
    {
        if x_to <= x_from {
            self
        } else {
            self.polygon_row(verts, unit, color, y, x_from, x_to - 1).polygon_pixel(verts, unit, color, x_to - 1, y)
        }
    }

    /// What a polygon does to the rows `[y_from, y_to)` of the columns
    /// `[x_from, x_to)`, row by row.
    pub open spec fn polygon_rows(
        self,
        verts: Seq<Vertex>,
        unit: UnitState,
        color: u16,
        y_from: int,
        y_to: int,
        x_from: int,
        x_to: int,
    ) -> RendererState
        decreases y_to - y_from,
    {
        if y_to <= y_from {
            self
        } else {
            self.polygon_rows(verts, unit, color, y_from, y_to - 1, x_from, x_to).polygon_row(
                verts,
                unit,
                color,
                y_to - 1,
                x_from,
                x_to,
            )
        }
    }

    /// The statistics after a polygon of `n` vertices was drawn.
    pub open spec fn counted(self, n: int) -> RendererState {
        RendererState {
            polygon_count: bumped(self.polygon_count),
            vertex_count: advanced(self.vertex_count, n),
            triangle_count: if n == 3 {
                bumped(self.triangle_count)
            } else {
                self.triangle_count
            },
            quad_count: if n == 4 {
                bumped(self.quad_count)
            } else {
                self.quad_count
            },
            ..self
        }
    }

    /// The renderer after a polygon given in world space was drawn. A
    /// polygon of fewer than three vertices, or one that faces away,
    /// changes nothing. Of any other, every pixel of its bounding box
    /// inside the viewport is visited.
    pub open spec fn polygon_drawn(self, verts: Seq<Vertex>, unit: UnitState, color: u16) -> RendererState {
        let sv = self.screen_vertices(verts);
        if verts.len() < 3 || !front_facing(sv) {
            self
        } else {
            let b = bounding_box(sv, self.viewport);
            self.polygon_rows(sv, unit, color, b.min_y, b.max_y + 1, b.min_x, b.max_x + 1).counted(
                verts.len() as int,
            )
        }
    }

    /// What point `i` of a line between two screen vertices does.
    pub open spec fn line_pixel(self, v1: Vertex, v2: Vertex, color: u16, i: int) -> RendererState {
        let p = line_point(pixel_of(v1.x), pixel_of(v1.y), pixel_of(v2.x), pixel_of(v2.y), i);
        if self.framebuffer.contains(p.0, p.1) {
            self.plotted(p.0, p.1, line_depth(v1, v2, p.0, p.1) as i32, color)
        } else {
            self
        }
    }

    /// What the first `upto` points of a line do.
    pub open spec fn line_walked(self, v1: Vertex, v2: Vertex, color: u16, upto: int) -> RendererState
        decreases upto,
    {
        if upto <= 0 {
            self
        } else {
            self.line_walked(v1, v2, color, upto - 1).line_pixel(v1, v2, color, upto - 1)
        }
    }

    /// The renderer after a line given in world space was drawn: every
    /// point of the walk from its first pixel to its last, both
    /// included, and one more polygon counted.
    pub open spec fn line_drawn(self, v1: Vertex, v2: Vertex, color: u16) -> RendererState {
        let s1 = self.screen_of(v1);
        let s2 = self.screen_of(v2);
        let n = line_steps(pixel_of(s1.x), pixel_of(s1.y), pixel_of(s2.x), pixel_of(s2.y));
        let walked = self.line_walked(s1, s2, color, n + 1);
        RendererState { polygon_count: bumped(walked.polygon_count), ..walked }
    }

    pub open spec fn cleared(self) -> RendererState {
        RendererState {
            framebuffer: self.framebuffer.cleared(),
            zbuffer: self.zbuffer.cleared(FAR_DEPTH),
            ..self
        }
    }

    pub open spec fn without_stats(self) -> RendererState {
        RendererState { polygon_count: 0, vertex_count: 0, triangle_count: 0, quad_count: 0, ..self }
    }
}

pub struct SVPRenderer {
    framebuffer: FrameBuffer,
    zbuffer: ZBuffer,
    camera: Camera,
    viewport: (u16, u16, u16, u16),
    render_mode: RenderMode,
    fog_enabled: bool,
    fog_color: u16,
    fog_start: i32,
    fog_end: i32,
    light_direction: [i32; 3],
    ambient_light: i32,
    diffuse_light: i32,
    polygon_count: u32,
    vertex_count: u32,
    triangle_count: u32,
    quad_count: u32,
}

impl View for SVPRenderer {
    type V = RendererState;

    closed spec fn view(&self) -> RendererState {
        RendererState {
            framebuffer: self.framebuffer@,
            zbuffer: self.zbuffer@,
            camera: self.camera,
            viewport: self.viewport,
            render_mode: self.render_mode,
            fog_enabled: self.fog_enabled,
            fog_color: self.fog_color,
            fog_start: self.fog_start,
            fog_end: self.fog_end,
            light_direction: self.light_direction@,
            ambient_light: self.ambient_light,
            diffuse_light: self.diffuse_light,
            polygon_count: self.polygon_count,
            vertex_count: self.vertex_count,
            triangle_count: self.triangle_count,
            quad_count: self.quad_count,
        }
    }
}

/// Half of a value, rounded toward minus infinity.
pub fn floor_half(a: i64) -> (h: i64)
    requires
        -0x2_0000_0000 <= a <= 0x2_0000_0000,
    ensures
        h == a as int / 2,
{
    let lifted: u64 = (a + 0x2_0000_0000) as u64;
    (lifted / 2) as i64 - 0x1_0000_0000
}

/// Scales each channel of a colour by a factor from 0 to 1.
pub fn scale_color(color: u16, factor: i32) -> (r: u16)
    requires
        0 <= factor <= ONE,
    ensures
        r == scaled_color(color, factor as int),
{
    let f: u32 = factor as u32;
    proof {
        lemma_product_bound(red_of(color), f as int, 31, 0x1_0000);
        lemma_product_bound(green_of(color), f as int, 31, 0x1_0000);
        lemma_product_bound(blue_of(color), f as int, 31, 0x1_0000);
    }
    let red: u32 = (((color / 1024) % 32) as u32 * f) / 0x1_0000;
    let green: u32 = (((color / 32) % 32) as u32 * f) / 0x1_0000;
    let blue: u32 = ((color % 32) as u32 * f) / 0x1_0000;
    (red * 1024 + green * 32 + blue) as u16
}

impl SVPRenderer {
    pub closed spec fn wf(&self) -> bool {
        self.framebuffer.wf() && self.zbuffer.wf() && self.camera.wf() && self.framebuffer@.double_buffered
    }

    /// A renderer that meets its invariant draws to a back buffer of its
    /// own: what it shows changes only when the buffers are swapped.
    pub proof fn lemma_wf_double_buffered(&self)
        requires
            self.wf(),
        ensures
            self@.framebuffer.double_buffered,
            self@.framebuffer.valid(),
            self@.zbuffer.valid(),
    {
        self.framebuffer.lemma_wf_valid();
    }

    /// A renderer for the 320 by 224 display: double-buffered, textured,
    /// without fog, the camera at the origin with a field of view of 60
    /// degrees.
    pub fn new() -> (r: Self)
        ensures
            r.wf(),
            r@.framebuffer.valid(),
            r@.zbuffer.valid(),
            r@.framebuffer.width == SCREEN_WIDTH,
            r@.framebuffer.height == SCREEN_HEIGHT,
            r@.framebuffer.double_buffered,
            r@.framebuffer.clear_color == 0,
            r@.framebuffer.front == Seq::new((SCREEN_WIDTH * SCREEN_HEIGHT) as nat, |i: int| 0u16),
            r@.framebuffer.back == Seq::new((SCREEN_WIDTH * SCREEN_HEIGHT) as nat, |i: int| 0u16),
            r@.zbuffer == DepthState::fresh(SCREEN_WIDTH, SCREEN_HEIGHT),
            r@.viewport == (0u16, 0u16, SCREEN_WIDTH, SCREEN_HEIGHT),
            r@.render_mode == RenderMode::Textured,
            !r@.fog_enabled,
            r@.fog_color == 0x7C00,
            r@.fog_start == 100 * ONE,
            r@.fog_end == 500 * ONE,
            r@.polygon_count == 0,
            r@.vertex_count == 0,
            r@.triangle_count == 0,
            r@.quad_count == 0,
    {
        SVPRenderer {
            framebuffer: FrameBuffer::new(SCREEN_WIDTH, SCREEN_HEIGHT, true),
            zbuffer: ZBuffer::new(SCREEN_WIDTH, SCREEN_HEIGHT),
            camera: Camera::new(60 * ONE, 93623),
            viewport: (0, 0, SCREEN_WIDTH, SCREEN_HEIGHT),
            render_mode: RenderMode::Textured,
            fog_enabled: false,
            fog_color: 0x7C00,
            fog_start: 100 * ONE,
            fog_end: 500 * ONE,
            light_direction: [0, -ONE, 0],
            ambient_light: 19661,
            diffuse_light: 45875,
            polygon_count: 0,
            vertex_count: 0,
            triangle_count: 0,
            quad_count: 0,
        }
    }

    /// Clears the buffers and the statistics.
    pub fn reset(&mut self)
        requires
            old(self).wf(),
        ensures
            final(self).wf(),
            final(self)@ == old(self)@.cleared().without_stats(),
    {
        self.framebuffer.clear();
        self.zbuffer.clear(FAR_DEPTH);
        self.polygon_count = 0;
        self.vertex_count = 0;
        self.triangle_count = 0;
        self.quad_count = 0;
    }

    /// Clears the back buffer to the clear colour and the depth buffer to
    /// the far depth.
    pub fn clear(&mut self)
        requires
            old(self).wf(),
        ensures
            final(self).wf(),
            final(self)@ == old(self)@.cleared(),
            final(self)@.framebuffer.front == old(self)@.framebuffer.front,
    {
        self.framebuffer.clear();
        self.zbuffer.clear(FAR_DEPTH);
    }

    fn plot(&mut self, x: u16, y: u16, depth: i32, color: u16)
        requires
            old(self).wf(),
        ensures
            final(self).wf(),
            final(self)@ == old(self)@.plotted(x as int, y as int, depth, color),
    {
        if self.zbuffer.test_and_write(x, y, depth) {
            self.framebuffer.draw_pixel(x, y, color);
        }
    }

    /// Draws a line between two points in world space, depth-tested and
    /// untextured.
    pub fn draw_line(&mut self, v1: Vertex, v2: Vertex, color: u16)
        requires
            old(self).wf(),
        ensures
            final(self).wf(),
            final(self)@ == old(self)@.line_drawn(v1, v2, color),
    {
        let s1 = self.world_to_screen(&v1);
        let s2 = self.world_to_screen(&v2);
        let x0: i32 = pixel_coord(s1.x);
        let y0: i32 = pixel_coord(s1.y);
        let x1: i32 = pixel_coord(s2.x);
        let y1: i32 = pixel_coord(s2.y);
        let dx: i32 = abs_int_exec(x1 - x0);
        let dy: i32 = abs_int_exec(y1 - y0);
        let sx: i32 = if x1 > x0 { 1 } else if x1 < x0 { -1 } else { 0 };
        let sy: i32 = if y1 > y0 { 1 } else if y1 < y0 { -1 } else { 0 };
        let n: i32 = if dx > dy { dx } else { dy };
        let (width, height) = self.framebuffer.get_resolution();
        let ghost start = self@;
        let mut i: i32 = 0;
        let mut kx: i32 = 0;
        let mut ky: i32 = 0;
        let mut ex: i32 = n;
        let mut ey: i32 = n;
        while i <= n
            invariant
                0 <= i <= n + 1,
                0 <= n < 0x1_0000,
                0 <= dx <= n,
                0 <= dy <= n,
                dx == abs_int(x1 - x0),
                dy == abs_int(y1 - y0),
                sx == sign_of(x1 - x0),
                sy == sign_of(y1 - y0),
                n == line_steps(x0 as int, y0 as int, x1 as int, y1 as int),
                -0x8000 <= x0 < 0x8000,
                -0x8000 <= y0 < 0x8000,
                -0x8000 <= x1 < 0x8000,
                -0x8000 <= y1 < 0x8000,
                x0 == pixel_of(s1.x),
                y0 == pixel_of(s1.y),
                x1 == pixel_of(s2.x),
                y1 == pixel_of(s2.y),
                n > 0 ==> 2 * n * kx + ex == 2 * i * dx + n && 0 <= ex < 2 * n,
                n > 0 ==> 2 * n * ky + ey == 2 * i * dy + n && 0 <= ey < 2 * n,
                n == 0 ==> kx == 0 && ky == 0 && ex == 0 && ey == 0,
                0 <= kx <= i,
                0 <= ky <= i,
                self.wf(),
                width == self@.framebuffer.width,
                height == self@.framebuffer.height,
                self@ == start.line_walked(s1, s2, color, i as int),
            decreases n + 1 - i,
        {
            proof {
                if n > 0 {
                    lemma_line_advance(n as int, dx as int, i as int, kx as int, ex as int);
                    lemma_line_advance(n as int, dy as int, i as int, ky as int, ey as int);
                    lemma_line_step(n as int, dx as int, i as int, kx as int, ex as int);
                    lemma_line_step(n as int, dy as int, i as int, ky as int, ey as int);
                }
                lemma_product_bound(sx as int, kx as int, 1, 0x1_0000);
                lemma_product_bound(sy as int, ky as int, 1, 0x1_0000);
            }
            let x: i32 = x0 + sx * kx;
            let y: i32 = y0 + sy * ky;
            assert((x as int, y as int) == line_point(x0 as int, y0 as int, x1 as int, y1 as int, i as int));
            if x >= 0 && x < width as i32 && y >= 0 && y < height as i32 {
                let depth = self.calculate_depth(&s1, &s2, x, y);
                self.plot(x as u16, y as u16, depth, color);
            }
            if n > 0 {
                ex = ex + 2 * dx;
                if ex >= 2 * n {
                    ex = ex - 2 * n;
                    kx = kx + 1;
                }
                ey = ey + 2 * dy;
                if ey >= 2 * n {
                    ey = ey - 2 * n;
                    ky = ky + 1;
                }
            }
            i = i + 1;
        }
        self.polygon_count = bump(self.polygon_count);
    }

    /// Draws a polygon given in world space. The texture sampled is the
    /// one bound in `texture_unit`; `texture_id` names it for the caller's
    /// bookkeeping.
    pub fn draw_polygon(&mut self, vertices: &Vec<Vertex>, texture_unit: &TextureUnit, texture_id: u8, color: u16)
        requires
            old(self).wf(),
            texture_unit.wf(),
        ensures
            final(self).wf(),
            final(self)@ == old(self)@.polygon_drawn(vertices@, texture_unit@, color),
    {
        let count = vertices.len();
        if count < 3 {
            return;
        }
        let mut screen_vertices: Vec<Vertex> = Vec::new();
        let mut k: usize = 0;
        while k < count
            invariant
                k <= count,
                count == vertices@.len(),
                screen_vertices@.len() == k,
                self@ == old(self)@,
                forall|j: int| 0 <= j < k ==> screen_vertices@[j] == self@.screen_of(vertices@[j]),
            decreases count - k,
        {
            let sv = self.world_to_screen(&vertices[k]);
            screen_vertices.push(sv);
            k = k + 1;
        }
        assert(screen_vertices@ =~= self@.screen_vertices(vertices@));
        if !self.is_front_facing(&screen_vertices) {
            return;
        }
        let (min_x, max_x, min_y, max_y) = self.calculate_bounding_box(&screen_vertices);
        let (width, height) = self.framebuffer.get_resolution();
        let ghost start = self@;
        let ghost sv = screen_vertices@;
        let ghost unit = texture_unit@;
        let mut y: i32 = min_y;
        while y <= max_y
            invariant
                min_y <= y,
                y <= max_y + 1 || y == min_y,
                0 <= min_x,
                max_x < 0x2_0000,
                0 <= min_y,
                max_y < 0x2_0000,
                self.wf(),
                texture_unit.wf(),
                unit == texture_unit@,
                sv == screen_vertices@,
                sv.len() >= 3,
                width == self@.framebuffer.width,
                height == self@.framebuffer.height,
                self@ == start.polygon_rows(sv, unit, color, min_y as int, y as int, min_x as int, max_x + 1),
            decreases max_y + 1 - y,
        {
            let ghost row_start = self@;
            let mut x: i32 = min_x;
            while x <= max_x
                invariant
                    min_x <= x,
                    x <= max_x + 1 || x == min_x,
                    0 <= min_x,
                    max_x < 0x2_0000,
                    0 <= y < 0x2_0000,
                    self.wf(),
                    texture_unit.wf(),
                    unit == texture_unit@,
                    sv == screen_vertices@,
                    sv.len() >= 3,
                    width == self@.framebuffer.width,
                    height == self@.framebuffer.height,
                    self@ == row_start.polygon_row(sv, unit, color, y as int, min_x as int, x as int),
                decreases max_x + 1 - x,
            {
                if x < width as i32 && y < height as i32 {
                    if self.is_point_in_polygon(x, y, &screen_vertices) {
                        let (alpha, beta, gamma) = self.calculate_barycentric(x, y, &screen_vertices);
                        let depth = self.interpolate_depth(alpha, beta, gamma, &screen_vertices);
                        let pixel_color = match self.render_mode {
                            RenderMode::Wireframe => color,
                            RenderMode::Solid => color,
                            _ => self.calculate_textured_pixel(
                                alpha,
                                beta,
                                gamma,
                                &screen_vertices,
                                texture_unit,
                                texture_id,
                            ),
                        };
                        let final_color = if self.fog_enabled {
                            self.apply_fog(pixel_color, depth)
                        } else {
                            pixel_color
                        };
                        self.plot(x as u16, y as u16, depth, final_color);
                    }
                }
                x = x + 1;
            }
            y = y + 1;
        }
        self.polygon_count = bump(self.polygon_count);
        self.vertex_count = if count > (u32::MAX - self.vertex_count) as usize {
            u32::MAX
        } else {
            self.vertex_count + count as u32
        };
        if count == 3 {
            self.triangle_count = bump(self.triangle_count);
        } else if count == 4 {
            self.quad_count = bump(self.quad_count);
        }
    }

    pub fn draw_triangle(
        &mut self,
        v1: Vertex,
        v2: Vertex,
        v3: Vertex,
        texture_unit: &TextureUnit,
        texture_id: u8,
        color: u16,
    )
        requires
            old(self).wf(),
            texture_unit.wf(),
        ensures
            final(self).wf(),
            final(self)@ == old(self)@.polygon_drawn(seq![v1, v2, v3], texture_unit@, color),
    {
        let vertices: Vec<Vertex> = vec![v1, v2, v3];
        assert(vertices@ =~= seq![v1, v2, v3]);
        self.draw_polygon(&vertices, texture_unit, texture_id, color);
    }

    /// Draws a quadrilateral as the two triangles on either side of the
    /// diagonal from its first to its third vertex.
    pub fn draw_quad(
        &mut self,
        v1: Vertex,
        v2: Vertex,
        v3: Vertex,
        v4: Vertex,
        texture_unit: &TextureUnit,
        texture_id: u8,
        color: u16,
    )
        requires
            old(self).wf(),
            texture_unit.wf(),
        ensures
            final(self).wf(),
            final(self)@ == old(self)@.polygon_drawn(seq![v1, v2, v3], texture_unit@, color).polygon_drawn(
                seq![v1, v3, v4],
                texture_unit@,
                color,
            ),
    {
        self.draw_triangle(v1, v2, v3, texture_unit, texture_id, color);
        self.draw_triangle(v1, v3, v4, texture_unit, texture_id, color);
    }

    fn world_to_screen(&self, vertex: &Vertex) -> (r: Vertex)
        ensures
            r == self@.screen_of(*vertex),
    {
        let t = self.camera.transform_vertex(vertex);
        let (vp_x, vp_y, vp_w, vp_h) = self.viewport;
        let hx: i64 = floor_half((t.x as i64) + (ONE as i64));
        let hy: i64 = floor_half((t.y as i64) + (ONE as i64));
        proof {
            lemma_product_bound(hx as int, vp_w as int, 0x1_0000_0000, 65535);
            lemma_product_bound((ONE - hy) as int, vp_h as int, 0x1_0000_0000, 65535);
        }
        let sx: i64 = hx * (vp_w as i64) + (vp_x as i64) * 0x1_0000;
        let sy: i64 = ((ONE as i64) - hy) * (vp_h as i64) + (vp_y as i64) * 0x1_0000;
        Vertex {
            x: saturate_i32(sx),
            y: saturate_i32(sy),
            z: t.z,
            w: t.w,
            u: t.u,
            v: t.v,
            color: t.color,
            intensity: t.intensity,
        }
    }

    fn calculate_bounding_box(&self, vertices: &Vec<Vertex>) -> (r: (i32, i32, i32, i32))
        ensures
            r.0 == bounding_box(vertices@, self@.viewport).min_x,
            r.1 == bounding_box(vertices@, self@.viewport).max_x,
            r.2 == bounding_box(vertices@, self@.viewport).min_y,
            r.3 == bounding_box(vertices@, self@.viewport).max_y,
            0 <= r.0,
            r.1 < 0x2_0000,
            0 <= r.2,
            r.3 < 0x2_0000,
    {
        bounding_box_of(vertices, self.viewport)
    }

    fn is_front_facing(&self, vertices: &Vec<Vertex>) -> (r: bool)
        ensures
            r == front_facing(vertices@),
    {
        is_front_facing_screen(vertices)
    }

    fn is_point_in_polygon(&self, x: i32, y: i32, vertices: &Vec<Vertex>) -> (r: bool)
        requires
            -0x1_0000 <= x <= 0x1_0000,
            -0x1_0000 <= y <= 0x1_0000,
        ensures
            r == point_in_polygon(vertices@, x as int, y as int),
    {
        point_inside(x, y, vertices)
    }

    fn calculate_barycentric(&self, x: i32, y: i32, vertices: &Vec<Vertex>) -> (r: (i32, i32, i32))
        requires
            vertices@.len() >= 3,
            0 <= x < 0x1_0000,
            0 <= y < 0x1_0000,
        ensures
            (r.0 as int, r.1 as int, r.2 as int) == barycentric(vertices@, x as int, y as int),
    {
        barycentric_weights(x, y, vertices)
    }

    fn interpolate_depth(&self, alpha: i32, beta: i32, gamma: i32, vertices: &Vec<Vertex>) -> (d: i32)
        requires
            vertices@.len() >= 3,
        ensures
            d == depth_at_weights((alpha as int, beta as int, gamma as int), vertices@),
    {
        dot3(alpha, vertices[0].z, beta, vertices[1].z, gamma, vertices[2].z)
    }

    fn calculate_depth(&self, v1: &Vertex, v2: &Vertex, x: i32, y: i32) -> (d: i32)
        requires
            0 <= x < 0x1_0000,
            0 <= y < 0x1_0000,
        ensures
            d == line_depth(*v1, *v2, x as int, y as int),
    {
        let xf: i64 = (x as i64) * 0x1_0000;
        let yf: i64 = (y as i64) * 0x1_0000;
        let length_sq: i128 = diff_product(v2.x as i64, v1.x as i64, v2.x as i64, v1.x as i64) + diff_product(
            v2.y as i64,
            v1.y as i64,
            v2.y as i64,
            v1.y as i64,
        );
        if length_sq < MIN_LENGTH_SQ {
            return v1.z;
        }
        let num: i128 = diff_product(xf, v1.x as i64, v2.x as i64, v1.x as i64) + diff_product(
            yf,
            v1.y as i64,
            v2.y as i64,
            v1.y as i64,
        );
        let t_raw = ratio(num, length_sq);
        let t: i64 = if t_raw < 0 {
            0
        } else if t_raw > ONE {
            ONE as i64
        } else {
            t_raw as i64
        };
        proof {
            lemma_product_bound(v1.z as int, 0x1_0000 - t, 0x8000_0000, 0x1_0000);
            lemma_product_bound(v2.z as int, t as int, 0x8000_0000, 0x1_0000);
            lemma_lerp_between(v1.z as int, v2.z as int, t as int);
        }
        let s: i64 = (v1.z as i64) * (0x1_0000 - t) + (v2.z as i64) * t;
        let (q, _f) = split_fixed(s);
        q as i32
    }

    fn calculate_textured_pixel(
        &self,
        alpha: i32,
        beta: i32,
        gamma: i32,
        vertices: &Vec<Vertex>,
        texture_unit: &TextureUnit,
        texture_id: u8,
    ) -> (c: u16)
        requires
            vertices@.len() >= 3,
            texture_unit.wf(),
        ensures
            c == self@.textured_color((alpha as int, beta as int, gamma as int), vertices@, texture_unit@),
    {
        let v0 = vertices[0];
        let v1 = vertices[1];
        let v2 = vertices[2];
        let w0: i32 = if v0.w != 0 { fx_div(ONE, v0.w) } else { ONE };
        let w1: i32 = if v1.w != 0 { fx_div(ONE, v1.w) } else { ONE };
        let w2: i32 = if v2.w != 0 { fx_div(ONE, v2.w) } else { ONE };
        let inv_w = dot3(alpha, w0, beta, w1, gamma, w2);
        if inv_w == 0 {
            return MISSING_TEXTURE_COLOR;
        }
        let u_over_w = dot3(alpha, fx_mul(v0.u, w0), beta, fx_mul(v1.u, w1), gamma, fx_mul(v2.u, w2));
        let v_over_w = dot3(alpha, fx_mul(v0.v, w0), beta, fx_mul(v1.v, w1), gamma, fx_mul(v2.v, w2));
        let u = fx_div(u_over_w, inv_w);
        let v = fx_div(v_over_w, inv_w);
        let tex_color = texture_unit.sample(u, v, 0);
        if self.render_mode == RenderMode::TexturedLight {
            self.apply_lighting(tex_color, alpha, beta, gamma, vertices)
        } else {
            tex_color
        }
    }

    fn apply_lighting(&self, color: u16, alpha: i32, beta: i32, gamma: i32, vertices: &Vec<Vertex>) -> (c: u16)
        requires
            vertices@.len() >= 3,
        ensures
            c == scaled_color(color, intensity_at_weights((alpha as int, beta as int, gamma as int), vertices@)),
    {
        let raw = dot3(
            alpha,
            vertices[0].intensity,
            beta,
            vertices[1].intensity,
            gamma,
            vertices[2].intensity,
        );
        let intensity: i32 = if raw < 0 {
            0
        } else if raw > ONE {
            ONE
        } else {
            raw
        };
        self.multiply_color(color, intensity)
    }

    fn multiply_color(&self, color: u16, factor: i32) -> (c: u16)
        requires
            0 <= factor <= ONE,
        ensures
            c == scaled_color(color, factor as int),
    {
        scale_color(color, factor)
    }

    fn apply_fog(&self, color: u16, depth: i32) -> (c: u16)
        ensures
            c == blend_rgb(color, self@.fog_color, fog_factor(depth as int, self@.fog_start as int, self@.fog_end as int)),
    {
        let factor: u32 = if self.fog_end == self.fog_start {
            if depth >= self.fog_start {
                ONE as u32
            } else {
                0
            }
        } else {
            let num = saturate_i32((depth as i64) - (self.fog_start as i64));
            let den = saturate_i32((self.fog_end as i64) - (self.fog_start as i64));
            let raw = fx_div(num, den);
            if raw < 0 {
                0
            } else if raw > ONE {
                ONE as u32
            } else {
                raw as u32
            }
        };
        self.interpolate_colors(color, self.fog_color, factor)
    }

    fn interpolate_colors(&self, color1: u16, color2: u16, t: u32) -> (c: u16)
        requires
            t <= 0x1_0000,
        ensures
            c == blend_rgb(color1, color2, t as int),
    {
        interpolate_rgb(color1, color2, t)
    }

    pub fn swap_buffers(&mut self)
        requires
            old(self).wf(),
        ensures
            final(self).wf(),
            final(self)@ == (RendererState { framebuffer: old(self)@.framebuffer.swapped(), ..old(self)@ }),
    {
        self.framebuffer.swap_buffers();
    }

    /// The pixels shown: the front buffer, row by row, 5-5-5.
    pub fn get_frame_buffer(&self) -> (r: &Vec<u16>)
        ensures
            r@ == self@.framebuffer.front,
    {
        self.framebuffer.get_buffer()
    }

    /// Reads a pixel of the back buffer, where drawing goes.
    pub fn get_back_pixel(&self, x: u16, y: u16) -> (c: u16)
        requires
            self.wf(),
        ensures
            c == (if self@.framebuffer.contains(x as int, y as int) {
                self@.framebuffer.back[crate::svp::framebuffer::pixel_index(
                    self@.framebuffer.width as int,
                    x as int,
                    y as int,
                )]
            } else {
                0
            }),
    {
        self.framebuffer.get_back_pixel(x, y)
    }

    pub fn set_render_mode(&mut self, mode: RenderMode)
        requires
            old(self).wf(),
        ensures
            final(self).wf(),
            final(self)@ == (RendererState { render_mode: mode, ..old(self)@ }),
    {
        self.render_mode = mode;
    }

    pub fn set_fog_enabled(&mut self, enabled: bool)
        requires
            old(self).wf(),
        ensures
            final(self).wf(),
            final(self)@ == (RendererState { fog_enabled: enabled, ..old(self)@ }),
    {
        self.fog_enabled = enabled;
    }

    pub fn set_fog_params(&mut self, color: u16, start: i32, end: i32)
        requires
            old(self).wf(),
        ensures
            final(self).wf(),
            final(self)@ == (RendererState { fog_color: color, fog_start: start, fog_end: end, ..old(self)@ }),
    {
        self.fog_color = color;
        self.fog_start = start;
        self.fog_end = end;
    }

    pub fn set_viewport(&mut self, x: u16, y: u16, width: u16, height: u16)
        requires
            old(self).wf(),
        ensures
            final(self).wf(),
            final(self)@ == (RendererState { viewport: (x, y, width, height), ..old(self)@ }),
    {
        self.viewport = (x, y, width, height);
    }

    pub fn set_light_direction(&mut self, x: i32, y: i32, z: i32)
        requires
            old(self).wf(),
        ensures
            final(self).wf(),
            final(self)@ == (RendererState { light_direction: seq![x, y, z], ..old(self)@ }),
    {
        self.light_direction = [x, y, z];
        assert(self.light_direction@ =~= seq![x, y, z]);
    }

    pub fn set_light_intensities(&mut self, ambient: i32, diffuse: i32)
        requires
            old(self).wf(),
        ensures
            final(self).wf(),
            final(self)@ == (RendererState { ambient_light: ambient, diffuse_light: diffuse, ..old(self)@ }),
    {
        self.ambient_light = ambient;
        self.diffuse_light = diffuse;
    }

    /// Moves and turns the camera.
    pub fn set_camera(&mut self, camera: Camera)
        requires
            old(self).wf(),
            camera.wf(),
        ensures
            final(self).wf(),
            final(self)@ == (RendererState { camera, ..old(self)@ }),
    {
        self.camera = camera;
    }

    /// Polygons, vertices, triangles and quadrilaterals drawn since the
    /// statistics were last reset.
    pub fn get_stats(&self) -> (r: (u32, u32, u32, u32))
        ensures
            r == (self@.polygon_count, self@.vertex_count, self@.triangle_count, self@.quad_count),
    {
        (self.polygon_count, self.vertex_count, self.triangle_count, self.quad_count)
    }

    pub fn reset_stats(&mut self)
        requires
            old(self).wf(),
        ensures
            final(self).wf(),
            final(self)@ == old(self)@.without_stats(),
    {
        self.polygon_count = 0;
        self.vertex_count = 0;
        self.triangle_count = 0;
        self.quad_count = 0;
    }
}

/// A polygon that faces away from the viewer leaves the renderer as it
/// was: no pixel, no depth, no count changes.
pub proof fn lemma_culled_polygon_draws_nothing(s: RendererState, verts: Seq<Vertex>, unit: UnitState, color: u16)
    requires
        !front_facing(s.screen_vertices(verts)),
    ensures
        s.polygon_drawn(verts, unit, color) == s,
{
}

/// Turning a triangle's winding round turns its facing round: of a
/// triangle with area and its reverse, exactly one faces the viewer.
pub proof fn lemma_reversed_winding_is_culled(v0: Vertex, v1: Vertex, v2: Vertex)
    requires
        front_facing(seq![v0, v1, v2]),
    ensures
        !front_facing(seq![v0, v2, v1]),
{
    assert(cross_z_of(v0, v2, v1) == -cross_z_of(v0, v1, v2)) by (nonlinear_arith);
}

/// The cross product that decides the facing of a triangle.
pub open spec fn cross_z_of(v0: Vertex, v1: Vertex, v2: Vertex) -> int {
    crate::svp::raster::cross_z(v0, v1, v2)
}

/// The two renderers agree in everything but pixels, depths and
/// statistics.
pub open spec fn settings_kept(s: RendererState, t: RendererState) -> bool {
    &&& t.framebuffer.width == s.framebuffer.width
    &&& t.framebuffer.height == s.framebuffer.height
    &&& t.framebuffer.back.len() == s.framebuffer.back.len()
    &&& t.framebuffer.double_buffered == s.framebuffer.double_buffered
    &&& t.zbuffer.width == s.zbuffer.width
    &&& t.zbuffer.height == s.zbuffer.height
    &&& t.zbuffer.data.len() == s.zbuffer.data.len()
    &&& t.zbuffer.enabled == s.zbuffer.enabled
    &&& t.zbuffer.write_enabled == s.zbuffer.write_enabled
    &&& t.zbuffer.test_enabled == s.zbuffer.test_enabled
    &&& t.camera == s.camera
    &&& t.viewport == s.viewport
    &&& t.render_mode == s.render_mode
    &&& t.fog_enabled == s.fog_enabled
    &&& t.fog_color == s.fog_color
    &&& t.fog_start == s.fog_start
    &&& t.fog_end == s.fog_end
}

/// The two renderers agree in their settings and in the colour and
/// the depth of the pixel `(x, y)`.
pub open spec fn pixel_kept(s: RendererState, t: RendererState, x: int, y: int) -> bool {
    &&& settings_kept(s, t)
    &&& t.framebuffer.back[pixel_index(s.framebuffer.width as int, x, y)] == s.framebuffer.back[pixel_index(
        s.framebuffer.width as int,
        x,
        y,
    )]
    &&& t.zbuffer.data[pixel_index(s.zbuffer.width as int, x, y)] == s.zbuffer.data[pixel_index(
        s.zbuffer.width as int,
        x,
        y,
    )]
}

/// The buffers hold the pixel `(x, y)`.
pub open spec fn holds_pixel(s: RendererState, x: int, y: int) -> bool {
    s.framebuffer.valid() && s.zbuffer.valid() && s.framebuffer.contains(x, y) && s.zbuffer.contains(x, y)
}

/// The colour that a polygon gives the pixel `(x, y)` where it draws
/// it.
pub open spec fn pixel_color(s: RendererState, verts: Seq<Vertex>, unit: UnitState, color: u16, x: int, y: int) -> u16 {
    s.fogged_color(
        s.shaded_color(barycentric(verts, x, y), verts, unit, color),
        depth_at_weights(barycentric(verts, x, y), verts),
    )
}

/// The depth that a polygon has at the pixel `(x, y)`.
pub open spec fn pixel_depth(verts: Seq<Vertex>, x: int, y: int) -> i32 {
    depth_at_weights(barycentric(verts, x, y), verts) as i32
}

/// Two pixels of a row-major buffer lie at different places.
proof fn lemma_pixel_index_differs(width: int, x: int, y: int, px: int, py: int)
    by (nonlinear_arith)
    requires
        0 <= x < width,
        0 <= px < width,
        x != px || y != py,
    ensures
        pixel_index(width, x, y) != pixel_index(width, px, py),
{
}

/// What a polygon does to one pixel leaves every other pixel alone.
proof fn lemma_pixel_elsewhere(
    s: RendererState,
    verts: Seq<Vertex>,
    unit: UnitState,
    color: u16,
    px: int,
    py: int,
    x: int,
    y: int,
)
    requires
        holds_pixel(s, x, y),
        px != x || py != y,
    ensures
        pixel_kept(s, s.polygon_pixel(verts, unit, color, px, py), x, y),
        holds_pixel(s.polygon_pixel(verts, unit, color, px, py), x, y),
{
    crate::svp::framebuffer::lemma_pixel_index_bound(s.framebuffer.width as int, s.framebuffer.height as int, x, y);
    crate::svp::framebuffer::lemma_pixel_index_bound(s.zbuffer.width as int, s.zbuffer.height as int, x, y);
    if s.framebuffer.contains(px, py) {
        lemma_pixel_index_differs(s.framebuffer.width as int, x, y, px, py);
        crate::svp::framebuffer::lemma_pixel_index_bound(
            s.framebuffer.width as int,
            s.framebuffer.height as int,
            px,
            py,
        );
    }
    if s.zbuffer.contains(px, py) {
        lemma_pixel_index_differs(s.zbuffer.width as int, x, y, px, py);
        crate::svp::framebuffer::lemma_pixel_index_bound(s.zbuffer.width as int, s.zbuffer.height as int, px, py);
    }
}

/// What a polygon does to a pixel that it holds and whose depth passes
/// the test: the pixel takes the polygon's colour.
proof fn lemma_pixel_here(s: RendererState, verts: Seq<Vertex>, unit: UnitState, color: u16, x: int, y: int)
    requires
        holds_pixel(s, x, y),
        point_in_polygon(verts, x, y),
        s.zbuffer.passes(x, y, pixel_depth(verts, x, y)),
    ensures
        settings_kept(s, s.polygon_pixel(verts, unit, color, x, y)),
        holds_pixel(s.polygon_pixel(verts, unit, color, x, y), x, y),
        s.polygon_pixel(verts, unit, color, x, y).framebuffer.back[pixel_index(s.framebuffer.width as int, x, y)]
            == pixel_color(s, verts, unit, color, x, y),
{
    crate::svp::framebuffer::lemma_pixel_index_bound(s.framebuffer.width as int, s.framebuffer.height as int, x, y);
    crate::svp::framebuffer::lemma_pixel_index_bound(s.zbuffer.width as int, s.zbuffer.height as int, x, y);
}

/// A part of a row that does not reach the pixel `(x, y)` leaves it
/// alone.
proof fn lemma_row_elsewhere(
    s: RendererState,
    verts: Seq<Vertex>,
    unit: UnitState,
    color: u16,
    row: int,
    x_from: int,
    x_to: int,
    x: int,
    y: int,
)
    requires
        holds_pixel(s, x, y),
        row != y || x < x_from || x >= x_to,
    ensures
        pixel_kept(s, s.polygon_row(verts, unit, color, row, x_from, x_to), x, y),
        holds_pixel(s.polygon_row(verts, unit, color, row, x_from, x_to), x, y),
    decreases x_to - x_from,
{
    if x_to > x_from {
        lemma_row_elsewhere(s, verts, unit, color, row, x_from, x_to - 1, x, y);
        let mid = s.polygon_row(verts, unit, color, row, x_from, x_to - 1);
        lemma_pixel_elsewhere(mid, verts, unit, color, x_to - 1, row, x, y);
    }
}

/// A part of a row that reaches the pixel `(x, y)` gives it the
/// polygon's colour, where the pixel lies in the polygon and its depth
/// passes the test.
proof fn lemma_row_here(
    s: RendererState,
    verts: Seq<Vertex>,
    unit: UnitState,
    color: u16,
    x_from: int,
    x_to: int,
    x: int,
    y: int,
)
    requires
        holds_pixel(s, x, y),
        x_from <= x < x_to,
        point_in_polygon(verts, x, y),
        s.zbuffer.passes(x, y, pixel_depth(verts, x, y)),
    ensures
        settings_kept(s, s.polygon_row(verts, unit, color, y, x_from, x_to)),
        holds_pixel(s.polygon_row(verts, unit, color, y, x_from, x_to), x, y),
        s.polygon_row(verts, unit, color, y, x_from, x_to).framebuffer.back[pixel_index(
            s.framebuffer.width as int,
            x,
            y,
        )] == pixel_color(s, verts, unit, color, x, y),
    decreases x_to - x_from,
{
    let mid = s.polygon_row(verts, unit, color, y, x_from, x_to - 1);
    if x == x_to - 1 {
        lemma_row_elsewhere(s, verts, unit, color, y, x_from, x_to - 1, x, y);
        lemma_pixel_here(mid, verts, unit, color, x, y);
    } else {
        lemma_row_here(s, verts, unit, color, x_from, x_to - 1, x, y);
        lemma_pixel_elsewhere(mid, verts, unit, color, x_to - 1, y, x, y);
    }
}

/// Rows that do not reach the pixel `(x, y)` leave it alone.
proof fn lemma_rows_elsewhere(
    s: RendererState,
    verts: Seq<Vertex>,
    unit: UnitState,
    color: u16,
    y_from: int,
    y_to: int,
    x_from: int,
    x_to: int,
    x: int,
    y: int,
)
    requires
        holds_pixel(s, x, y),
        y < y_from || y >= y_to || x < x_from || x >= x_to,
    ensures
        pixel_kept(s, s.polygon_rows(verts, unit, color, y_from, y_to, x_from, x_to), x, y),
        holds_pixel(s.polygon_rows(verts, unit, color, y_from, y_to, x_from, x_to), x, y),
    decreases y_to - y_from,
{
    if y_to > y_from {
        lemma_rows_elsewhere(s, verts, unit, color, y_from, y_to - 1, x_from, x_to, x, y);
        let mid = s.polygon_rows(verts, unit, color, y_from, y_to - 1, x_from, x_to);
        lemma_row_elsewhere(mid, verts, unit, color, y_to - 1, x_from, x_to, x, y);
    }
}

/// Rows that reach the pixel `(x, y)` give it the polygon's colour,
/// where the pixel lies in the polygon and its depth passes the test.
proof fn lemma_rows_here(
    s: RendererState,
    verts: Seq<Vertex>,
    unit: UnitState,
    color: u16,
    y_from: int,
    y_to: int,
    x_from: int,
    x_to: int,
    x: int,
    y: int,
)
    requires
        holds_pixel(s, x, y),
        y_from <= y < y_to,
        x_from <= x < x_to,
        point_in_polygon(verts, x, y),
        s.zbuffer.passes(x, y, pixel_depth(verts, x, y)),
    ensures
        settings_kept(s, s.polygon_rows(verts, unit, color, y_from, y_to, x_from, x_to)),
        holds_pixel(s.polygon_rows(verts, unit, color, y_from, y_to, x_from, x_to), x, y),
        s.polygon_rows(verts, unit, color, y_from, y_to, x_from, x_to).framebuffer.back[pixel_index(
            s.framebuffer.width as int,
            x,
            y,
        )] == pixel_color(s, verts, unit, color, x, y),
    decreases y_to - y_from,
{
    let mid = s.polygon_rows(verts, unit, color, y_from, y_to - 1, x_from, x_to);
    if y == y_to - 1 {
        lemma_rows_elsewhere(s, verts, unit, color, y_from, y_to - 1, x_from, x_to, x, y);
        lemma_row_here(mid, verts, unit, color, x_from, x_to, x, y);
    } else {
        lemma_rows_here(s, verts, unit, color, y_from, y_to - 1, x_from, x_to, x, y);
        lemma_row_elsewhere(mid, verts, unit, color, y_to - 1, x_from, x_to, x, y);
    }
}

/// A polygon that faces the viewer gives a pixel its colour where the
/// pixel lies in the polygon and in its bounding box, the buffers hold
/// it, and its depth passes the test: in the solid mode without fog the
/// colour that was asked for.
pub proof fn lemma_inside_pixel_is_drawn(
    s: RendererState,
    verts: Seq<Vertex>,
    unit: UnitState,
    color: u16,
    x: int,
    y: int,
)
    requires
        holds_pixel(s, x, y),
        verts.len() >= 3,
        front_facing(s.screen_vertices(verts)),
        bounding_box(s.screen_vertices(verts), s.viewport).min_x <= x <= bounding_box(
            s.screen_vertices(verts),
            s.viewport,
        ).max_x,
        bounding_box(s.screen_vertices(verts), s.viewport).min_y <= y <= bounding_box(
            s.screen_vertices(verts),
            s.viewport,
        ).max_y,
        point_in_polygon(s.screen_vertices(verts), x, y),
        s.zbuffer.passes(x, y, pixel_depth(s.screen_vertices(verts), x, y)),
    ensures
        s.polygon_drawn(verts, unit, color).framebuffer.back[pixel_index(s.framebuffer.width as int, x, y)]
            == pixel_color(s, s.screen_vertices(verts), unit, color, x, y),
        s.render_mode == RenderMode::Solid && !s.fog_enabled ==> s.polygon_drawn(
            verts,
            unit,
            color,
        ).framebuffer.back[pixel_index(s.framebuffer.width as int, x, y)] == color,
{
    let sv = s.screen_vertices(verts);
    let b = bounding_box(sv, s.viewport);
    lemma_rows_here(s, sv, unit, color, b.min_y, b.max_y + 1, b.min_x, b.max_x + 1, x, y);
}

/// A triangle that faces the viewer gives its colour to every pixel
/// that lies strictly inside it and inside the viewport, that the
/// buffers hold and whose depth passes the test: in the solid mode
/// without fog the colour that was asked for.
pub proof fn lemma_triangle_interior_is_drawn(
    s: RendererState,
    verts: Seq<Vertex>,
    unit: UnitState,
    color: u16,
    x: int,
    y: int,
)
    requires
        holds_pixel(s, x, y),
        verts.len() == 3,
        front_facing(s.screen_vertices(verts)),
        strictly_inside(s.screen_vertices(verts), x, y),
        s.viewport.0 <= x <= s.viewport.0 + s.viewport.2 - 1,
        s.viewport.1 <= y <= s.viewport.1 + s.viewport.3 - 1,
        s.zbuffer.passes(x, y, pixel_depth(s.screen_vertices(verts), x, y)),
    ensures
        s.polygon_drawn(verts, unit, color).framebuffer.back[pixel_index(s.framebuffer.width as int, x, y)]
            == pixel_color(s, s.screen_vertices(verts), unit, color, x, y),
        s.render_mode == RenderMode::Solid && !s.fog_enabled ==> s.polygon_drawn(
            verts,
            unit,
            color,
        ).framebuffer.back[pixel_index(s.framebuffer.width as int, x, y)] == color,
{
    let sv = s.screen_vertices(verts);
    crate::svp::raster::lemma_strictly_inside_is_covered(sv, x, y);
    crate::svp::raster::lemma_strictly_inside_is_within(sv, x, y);
    lemma_inside_pixel_is_drawn(s, verts, unit, color, x, y);
}

/// A solid triangle without fog that faces the viewer and has room for
/// a pixel at its centre has its colour there, where that pixel lies
/// inside the viewport, the buffers hold it and its depth passes the
/// test.
pub proof fn lemma_centroid_is_drawn(s: RendererState, verts: Seq<Vertex>, unit: UnitState, color: u16)
    requires
        verts.len() == 3,
        front_facing(s.screen_vertices(verts)),
        roomy(s.screen_vertices(verts)),
        s.render_mode == RenderMode::Solid,
        !s.fog_enabled,
        holds_pixel(s, centroid_pixel(s.screen_vertices(verts)).0, centroid_pixel(s.screen_vertices(verts)).1),
        s.viewport.0 <= centroid_pixel(s.screen_vertices(verts)).0 <= s.viewport.0 + s.viewport.2 - 1,
        s.viewport.1 <= centroid_pixel(s.screen_vertices(verts)).1 <= s.viewport.1 + s.viewport.3 - 1,
        s.zbuffer.passes(
            centroid_pixel(s.screen_vertices(verts)).0,
            centroid_pixel(s.screen_vertices(verts)).1,
            pixel_depth(
                s.screen_vertices(verts),
                centroid_pixel(s.screen_vertices(verts)).0,
                centroid_pixel(s.screen_vertices(verts)).1,
            ),
        ),
    ensures
        s.polygon_drawn(verts, unit, color).framebuffer.back[pixel_index(
            s.framebuffer.width as int,
            centroid_pixel(s.screen_vertices(verts)).0,
            centroid_pixel(s.screen_vertices(verts)).1,
        )] == color,
{
    let sv = s.screen_vertices(verts);
    let c = centroid_pixel(sv);
    crate::svp::raster::lemma_centroid_is_strictly_inside(sv);
    lemma_triangle_interior_is_drawn(s, verts, unit, color, c.0, c.1);
}

/// A pixel outside the bounding box of a polygon keeps its colour and
/// its depth.
pub proof fn lemma_outside_pixel_is_kept(
    s: RendererState,
    verts: Seq<Vertex>,
    unit: UnitState,
    color: u16,
    x: int,
    y: int,
)
    requires
        holds_pixel(s, x, y),
        x < bounding_box(s.screen_vertices(verts), s.viewport).min_x || x > bounding_box(
            s.screen_vertices(verts),
            s.viewport,
        ).max_x || y < bounding_box(s.screen_vertices(verts), s.viewport).min_y || y > bounding_box(
            s.screen_vertices(verts),
            s.viewport,
        ).max_y,
    ensures
        pixel_kept(s, s.polygon_drawn(verts, unit, color), x, y),
{
    let sv = s.screen_vertices(verts);
    let b = bounding_box(sv, s.viewport);
    lemma_rows_elsewhere(s, sv, unit, color, b.min_y, b.max_y + 1, b.min_x, b.max_x + 1, x, y);
}

/// A clear gives every pixel of the back buffer the clear colour and
/// every pixel of the depth buffer the far depth, which no depth
/// exceeds; what is shown stays.
pub proof fn lemma_clear_resets_back_and_depth(s: RendererState)
    requires
        s.framebuffer.double_buffered,
    ensures
        s.cleared().framebuffer.front == s.framebuffer.front,
        s.cleared().framebuffer.back.len() == s.framebuffer.back.len(),
        forall|i: int|
            0 <= i < s.framebuffer.back.len() ==> #[trigger] s.cleared().framebuffer.back[i]
                == s.framebuffer.clear_color,
        s.cleared().zbuffer.data.len() == s.zbuffer.data.len(),
        forall|i: int| 0 <= i < s.zbuffer.data.len() ==> #[trigger] s.cleared().zbuffer.data[i] == FAR_DEPTH,
        FAR_DEPTH == i32::MAX,
{
}

/// After a clear, with the depth test on, a pixel inside the depth
/// buffer that is nearer than the far depth is drawn.
pub proof fn lemma_first_pixel_after_clear_is_drawn(s: RendererState, x: int, y: int, depth: i32, color: u16)
    requires
        s.zbuffer.valid(),
        s.zbuffer.contains(x, y),
        depth < FAR_DEPTH,
    ensures
        s.cleared().zbuffer.passes(x, y, depth),
        s.cleared().plotted(x, y, depth, color).framebuffer == s.cleared().framebuffer.drawn(x, y, color),
{
    crate::svp::framebuffer::lemma_first_write_passes(s.zbuffer, x, y, depth);
}

} // verus!
