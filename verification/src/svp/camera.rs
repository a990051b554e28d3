//! The camera: position, Euler rotation, field of view and aspect ratio,
//! and the view and projection matrices derived from them.

use vstd::prelude::*;
use crate::svp::fixed::{clamp_i32, fx_div, fx_div_spec, fx_mul, fx_mul_spec, saturate_i32, ONE};
use crate::svp::geometry::{cos_deg, cos_deg_spec, dot4, dot4_spec, sin_deg, sin_deg_spec, Vertex};

verus! {

/// `(near + far) / (near - far)` for the planes 0.1 and 1000.
pub const DEPTH_SCALE: i32 = -65549;

/// `2 * near * far / (near - far)` for the planes 0.1 and 1000.
pub const DEPTH_OFFSET: i32 = -13109;

/// Sum of two fixed-point numbers, saturated.
pub open spec fn fx_add_spec(a: int, b: int) -> int {
    clamp_i32(a + b)
}

/// A fixed-point number negated, saturated.
pub open spec fn fx_neg_spec(a: int) -> int {
    clamp_i32(-a)
}

pub fn fx_add(a: i32, b: i32) -> (r: i32)
    ensures
        r == fx_add_spec(a as int, b as int),
{
    saturate_i32((a as i64) + (b as i64))
}

pub fn fx_neg(a: i32) -> (r: i32)
    ensures
        r == fx_neg_spec(a as int),
{
    saturate_i32(-(a as i64))
}

/// Entry `(i, j)` of the view matrix of a camera at `pos` turned by the
/// Euler angles `rot` (pitch, yaw, roll, in degrees): the rotation in the
/// upper three rows, the negated position in the last.
pub open spec fn view_entry(pos: Seq<i32>, rot: Seq<i32>, i: int, j: int) -> int {
    let sp = sin_deg_spec(rot[0] as int);
    let cp = cos_deg_spec(rot[0] as int);
    let sy = sin_deg_spec(rot[1] as int);
    let cy = cos_deg_spec(rot[1] as int);
    let sr = sin_deg_spec(rot[2] as int);
    let cr = cos_deg_spec(rot[2] as int);
    let spsy = fx_mul_spec(sp, sy);
    let cpsy = fx_mul_spec(cp, sy);
    if j == 3 {
        if i == 3 {
            ONE as int
        } else {
            0
        }
    } else if i == 3 {
        fx_neg_spec(pos[j] as int)
    } else if i == 0 {
        if j == 0 {
            fx_mul_spec(cy, cr)
        } else if j == 1 {
            fx_neg_spec(fx_mul_spec(cy, sr))
        } else {
            sy
        }
    } else if i == 1 {
        if j == 0 {
            fx_add_spec(fx_mul_spec(spsy, cr), fx_mul_spec(cp, sr))
        } else if j == 1 {
            fx_add_spec(fx_neg_spec(fx_mul_spec(spsy, sr)), fx_mul_spec(cp, cr))
        } else {
            fx_neg_spec(fx_mul_spec(sp, cy))
        }
    } else {
        if j == 0 {
            fx_add_spec(fx_neg_spec(fx_mul_spec(cpsy, cr)), fx_mul_spec(sp, sr))
        } else if j == 1 {
            fx_add_spec(fx_mul_spec(cpsy, sr), fx_mul_spec(sp, cr))
        } else {
            fx_mul_spec(cp, cy)
        }
    }
}

/// The focal factor `1 / tan(fov / 2)`, as cosine over sine of the half
/// angle; with a sine of zero, the largest number.
pub open spec fn focal_spec(fov: int) -> int {
    let half = fov / 2;
    if sin_deg_spec(half) == 0 {
        i32::MAX as int
    } else {
        fx_div_spec(cos_deg_spec(half), sin_deg_spec(half))
    }
}

/// Entry `(i, j)` of the perspective projection for a field of view in
/// degrees and an aspect ratio, with the planes at 0.1 and 1000. An
/// aspect ratio of zero gives a zero x scale.
pub open spec fn projection_entry(fov: int, aspect: int, i: int, j: int) -> int {
    if i == 0 && j == 0 {
        if aspect == 0 {
            0
        } else {
            fx_div_spec(focal_spec(fov), aspect)
        }
    } else if i == 1 && j == 1 {
        focal_spec(fov)
    } else if i == 2 && j == 2 {
        DEPTH_SCALE as int
    } else if i == 2 && j == 3 {
        -(ONE as int)
    } else if i == 3 && j == 2 {
        DEPTH_OFFSET as int
    } else {
        0
    }
}

/// Column `j` of a matrix applied to the row vector `(x, y, z, w)`.
pub open spec fn column_dot(m: Seq<[i32; 4]>, j: int, x: int, y: int, z: int, w: int) -> int {
    dot4_spec(m[0][j] as int, x, m[1][j] as int, y, m[2][j] as int, z, m[3][j] as int, w)
}

pub struct Camera {
    pub position: [i32; 3],
    /// Pitch, yaw and roll in degrees.
    pub rotation: [i32; 3],
    /// Field of view in degrees.
    pub fov: i32,
    pub aspect_ratio: i32,
    pub view_matrix: [[i32; 4]; 4],
    pub projection_matrix: [[i32; 4]; 4],
}

impl Camera {
    /// The view matrix is the one that position and rotation give.
    pub open spec fn view_current(&self) -> bool {
        forall|i: int, j: int|
            0 <= i < 4 && 0 <= j < 4 ==> #[trigger] self.view_matrix[i][j] == view_entry(
                self.position@,
                self.rotation@,
                i,
                j,
            )
    }

    /// The projection matrix is the one that field of view and aspect
    /// ratio give.
    pub open spec fn projection_current(&self) -> bool {
        forall|i: int, j: int|
            0 <= i < 4 && 0 <= j < 4 ==> #[trigger] self.projection_matrix[i][j] == projection_entry(
                self.fov as int,
                self.aspect_ratio as int,
                i,
                j,
            )
    }

    /// Both matrices are up to date.
    pub open spec fn wf(&self) -> bool {
        self.view_current() && self.projection_current()
    }

    /// The vertex in clip space, before the perspective divide: `(x, y,
    /// z, w)`.
    pub open spec fn clip_of(&self, v: Vertex) -> (int, int, int, int) {
        let vm = self.view_matrix@;
        let pm = self.projection_matrix@;
        let vx = column_dot(vm, 0, v.x as int, v.y as int, v.z as int, v.w as int);
        let vy = column_dot(vm, 1, v.x as int, v.y as int, v.z as int, v.w as int);
        let vz = column_dot(vm, 2, v.x as int, v.y as int, v.z as int, v.w as int);
        let vw = column_dot(vm, 3, v.x as int, v.y as int, v.z as int, v.w as int);
        (
            column_dot(pm, 0, vx, vy, vz, vw),
            column_dot(pm, 1, vx, vy, vz, vw),
            column_dot(pm, 2, vx, vy, vz, vw),
            column_dot(pm, 3, vx, vy, vz, vw),
        )
    }

    /// The vertex in normalized device coordinates: view transform,
    /// projection, perspective divide. Texture coordinates are divided by
    /// `w` too, for perspective-correct interpolation. A vertex whose
    /// clip-space `w` is zero is handed back as it is.
    pub open spec fn transformed(&self, v: Vertex) -> Vertex {
        let (px, py, pz, pw) = self.clip_of(v);
        if pw == 0 {
            v
        } else {
            Vertex {
                x: fx_div_spec(px, pw) as i32,
                y: fx_div_spec(py, pw) as i32,
                z: fx_div_spec(pz, pw) as i32,
                w: pw as i32,
                u: fx_div_spec(v.u as int, pw) as i32,
                v: fx_div_spec(v.v as int, pw) as i32,
                color: v.color,
                intensity: v.intensity,
            }
        }
    }

    /// A camera at the origin, looking down the z axis.
    pub fn new(fov: i32, aspect_ratio: i32) -> (c: Self)
        ensures
            c.wf(),
            c.position@ == seq![0i32, 0i32, 0i32],
            c.rotation@ == seq![0i32, 0i32, 0i32],
            c.fov == fov,
            c.aspect_ratio == aspect_ratio,
    {
        let mut camera = Camera {
            position: [0, 0, 0],
            rotation: [0, 0, 0],
            fov,
            aspect_ratio,
            view_matrix: [[0; 4]; 4],
            projection_matrix: [[0; 4]; 4],
        };
        camera.update_view_matrix();
        camera.update_projection_matrix();
        assert(camera.position@ =~= seq![0i32, 0i32, 0i32]);
        assert(camera.rotation@ =~= seq![0i32, 0i32, 0i32]);
        camera
    }

    /// Recomputes the view matrix from position and rotation.
    pub fn update_view_matrix(&mut self)
        ensures
            final(self).view_current(),
            final(self).position == old(self).position,
            final(self).rotation == old(self).rotation,
            final(self).fov == old(self).fov,
            final(self).aspect_ratio == old(self).aspect_ratio,
            final(self).projection_matrix == old(self).projection_matrix,
    {
        let sp = sin_deg(self.rotation[0]);
        let cp = cos_deg(self.rotation[0]);
        let sy = sin_deg(self.rotation[1]);
        let cy = cos_deg(self.rotation[1]);
        let sr = sin_deg(self.rotation[2]);
        let cr = cos_deg(self.rotation[2]);
        let spsy = fx_mul(sp, sy);
        let cpsy = fx_mul(cp, sy);
        self.view_matrix = [
            [fx_mul(cy, cr), fx_neg(fx_mul(cy, sr)), sy, 0],
            [
                fx_add(fx_mul(spsy, cr), fx_mul(cp, sr)),
                fx_add(fx_neg(fx_mul(spsy, sr)), fx_mul(cp, cr)),
                fx_neg(fx_mul(sp, cy)),
                0,
            ],
            [
                fx_add(fx_neg(fx_mul(cpsy, cr)), fx_mul(sp, sr)),
                fx_add(fx_mul(cpsy, sr), fx_mul(sp, cr)),
                fx_mul(cp, cy),
                0,
            ],
            [fx_neg(self.position[0]), fx_neg(self.position[1]), fx_neg(self.position[2]), ONE],
        ];
    }

    /// Recomputes the projection matrix from field of view and aspect
    /// ratio.
    pub fn update_projection_matrix(&mut self)
        ensures
            final(self).projection_current(),
            final(self).position == old(self).position,
            final(self).rotation == old(self).rotation,
            final(self).fov == old(self).fov,
            final(self).aspect_ratio == old(self).aspect_ratio,
            final(self).view_matrix == old(self).view_matrix,
    {
        let half: i32 = half_angle(self.fov);
        let s = sin_deg(half);
        let f: i32 = if s == 0 {
            i32::MAX
        } else {
            fx_div(cos_deg(half), s)
        };
        let fx: i32 = if self.aspect_ratio == 0 {
            0
        } else {
            fx_div(f, self.aspect_ratio)
        };
        self.projection_matrix = [
            [fx, 0, 0, 0],
            [0, f, 0, 0],
            [0, 0, DEPTH_SCALE, -ONE],
            [0, 0, DEPTH_OFFSET, 0],
        ];
    }

    pub fn set_position(&mut self, x: i32, y: i32, z: i32)
        requires
            old(self).wf(),
        ensures
            final(self).wf(),
            final(self).position@ == seq![x, y, z],
            final(self).rotation == old(self).rotation,
            final(self).fov == old(self).fov,
            final(self).aspect_ratio == old(self).aspect_ratio,
    {
        self.position = [x, y, z];
        self.update_view_matrix();
        assert(self.position@ =~= seq![x, y, z]);
    }

    pub fn set_rotation(&mut self, pitch: i32, yaw: i32, roll: i32)
        requires
            old(self).wf(),
        ensures
            final(self).wf(),
            final(self).rotation@ == seq![pitch, yaw, roll],
            final(self).position == old(self).position,
            final(self).fov == old(self).fov,
            final(self).aspect_ratio == old(self).aspect_ratio,
    {
        self.rotation = [pitch, yaw, roll];
        self.update_view_matrix();
        assert(self.rotation@ =~= seq![pitch, yaw, roll]);
    }

    /// Takes a vertex from world space to normalized device coordinates.
    pub fn transform_vertex(&self, vertex: &Vertex) -> (r: Vertex)
        ensures
            r == self.transformed(*vertex),
    {
        let x = vertex.x;
        let y = vertex.y;
        let z = vertex.z;
        let w = vertex.w;
        let vm = &self.view_matrix;
        let pm = &self.projection_matrix;
        let view_x = dot4(vm[0][0], x, vm[1][0], y, vm[2][0], z, vm[3][0], w);
        let view_y = dot4(vm[0][1], x, vm[1][1], y, vm[2][1], z, vm[3][1], w);
        let view_z = dot4(vm[0][2], x, vm[1][2], y, vm[2][2], z, vm[3][2], w);
        let view_w = dot4(vm[0][3], x, vm[1][3], y, vm[2][3], z, vm[3][3], w);
        let proj_x = dot4(pm[0][0], view_x, pm[1][0], view_y, pm[2][0], view_z, pm[3][0], view_w);
        let proj_y = dot4(pm[0][1], view_x, pm[1][1], view_y, pm[2][1], view_z, pm[3][1], view_w);
        let proj_z = dot4(pm[0][2], view_x, pm[1][2], view_y, pm[2][2], view_z, pm[3][2], view_w);
        let proj_w = dot4(pm[0][3], view_x, pm[1][3], view_y, pm[2][3], view_z, pm[3][3], view_w);
        if proj_w != 0 {
            Vertex {
                x: fx_div(proj_x, proj_w),
                y: fx_div(proj_y, proj_w),
                z: fx_div(proj_z, proj_w),
                w: proj_w,
                u: fx_div(vertex.u, proj_w),
                v: fx_div(vertex.v, proj_w),
                color: vertex.color,
                intensity: vertex.intensity,
            }
        } else {
            *vertex
        }
    }
}

/// Half of an angle, rounded toward minus infinity.
pub fn half_angle(a: i32) -> (h: i32)
    ensures
        h == a as int / 2,
{
    let lifted: u64 = ((a as i64) + 0x8000_0000) as u64;
    ((lifted / 2) as i64 - 0x4000_0000) as i32
}

} // verus!
