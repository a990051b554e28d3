//! The colour buffers and the depth buffer that the renderer draws into.

use vstd::prelude::*;
use crate::svp::fixed::{clamp_i32, fx_div, fx_div_spec, lemma_product_bound, saturate_i32};

verus! {

/// The depth of a pixel that nothing was drawn on: further than any
/// depth a drawn pixel can have.
pub const FAR_DEPTH: i32 = i32::MAX;

/// The colour that a buffer is cleared to until another is set.
pub const DEFAULT_CLEAR_COLOR: u16 = 0x0000;

/// Index of pixel `(x, y)` in a buffer `width` pixels wide.
pub open spec fn pixel_index(width: int, x: int, y: int) -> int {
    y * width + x
}

/// The colour buffers as contracts see them. With one buffer only, front
/// and back are the same pixels.
pub struct FrameState {
    pub width: u16,
    pub height: u16,
    pub clear_color: u16,
    pub double_buffered: bool,
    pub front: Seq<u16>,
    pub back: Seq<u16>,
}

impl FrameState {
    pub open spec fn valid(self) -> bool {
        &&& self.front.len() == self.width * self.height
        &&& self.back.len() == self.width * self.height
        &&& (!self.double_buffered ==> self.front == self.back)
    }

    pub open spec fn contains(self, x: int, y: int) -> bool {
        0 <= x < self.width && 0 <= y < self.height
    }

    /// The buffers with the back buffer replaced; a single buffer shows
    /// at once what is drawn.
    pub open spec fn with_back(self, back: Seq<u16>) -> FrameState {
        if self.double_buffered {
            FrameState { back, ..self }
        } else {
            FrameState { back, front: back, ..self }
        }
    }

    pub open spec fn cleared(self) -> FrameState {
        self.with_back(Seq::new(self.back.len(), |i: int| self.clear_color))
    }

    /// The buffers after a pixel was drawn; outside the buffer nothing is
    /// drawn.
    pub open spec fn drawn(self, x: int, y: int, color: u16) -> FrameState {
        if self.contains(x, y) {
            self.with_back(self.back.update(pixel_index(self.width as int, x, y), color))
        } else {
            self
        }
    }

    /// The pixel shown at `(x, y)`, or 0 outside the buffer.
    pub open spec fn shown(self, x: int, y: int) -> u16 {
        if self.contains(x, y) {
            self.front[pixel_index(self.width as int, x, y)]
        } else {
            0
        }
    }

    pub open spec fn swapped(self) -> FrameState {
        FrameState { front: self.back, back: self.front, ..self }
    }
}

pub struct FrameBuffer {
    width: u16,
    height: u16,
    clear_color: u16,
    double_buffered: bool,
    first_is_front: bool,
    first: Vec<u16>,
    second: Vec<u16>,
}

impl View for FrameBuffer {
    type V = FrameState;

    closed spec fn view(&self) -> FrameState {
        FrameState {
            width: self.width,
            height: self.height,
            clear_color: self.clear_color,
            double_buffered: self.double_buffered,
            front: if !self.double_buffered || self.first_is_front {
                self.first@
            } else {
                self.second@
            },
            back: if self.double_buffered && self.first_is_front {
                self.second@
            } else {
                self.first@
            },
        }
    }
}

/// A pixel index fits the buffer that `(x, y)` lies in.
pub proof fn lemma_pixel_index_bound(width: int, height: int, x: int, y: int)
    by (nonlinear_arith)
    requires
        0 <= x < width,
        0 <= y < height,
    ensures
        0 <= pixel_index(width, x, y) < width * height,
{
}

impl FrameBuffer {
    pub closed spec fn wf(&self) -> bool {
        &&& self.first@.len() == self.width * self.height
        &&& self.second@.len() == self.width * self.height
    }

    pub proof fn lemma_wf_valid(&self)
        requires
            self.wf(),
        ensures
            self@.valid(),
    {
    }

    /// Buffers of `width` by `height` pixels, all of the default clear
    /// colour.
    pub fn new(width: u16, height: u16, double_buffered: bool) -> (r: Self)
        ensures
            r.wf(),
            r@.valid(),
            r@.width == width,
            r@.height == height,
            r@.clear_color == DEFAULT_CLEAR_COLOR,
            r@.double_buffered == double_buffered,
            r@.front == Seq::new((width * height) as nat, |i: int| DEFAULT_CLEAR_COLOR),
            r@.back == Seq::new((width * height) as nat, |i: int| DEFAULT_CLEAR_COLOR),
    {
        proof {
            lemma_product_bound(width as int, height as int, 65535, 65535);
        }
        let size: usize = (width as usize) * (height as usize);
        let first: Vec<u16> = vec![DEFAULT_CLEAR_COLOR; size];
        let second: Vec<u16> = vec![DEFAULT_CLEAR_COLOR; size];
        assert(first@ =~= Seq::new((width * height) as nat, |i: int| DEFAULT_CLEAR_COLOR));
        assert(second@ =~= Seq::new((width * height) as nat, |i: int| DEFAULT_CLEAR_COLOR));
        FrameBuffer {
            width,
            height,
            clear_color: DEFAULT_CLEAR_COLOR,
            double_buffered,
            first_is_front: true,
            first,
            second,
        }
    }

    /// Fills the back buffer with the clear colour.
    pub fn clear(&mut self)
        requires
            old(self).wf(),
        ensures
            final(self).wf(),
            final(self)@ == old(self)@.cleared(),
    {
        let color = self.clear_color;
        let to_second = self.double_buffered && self.first_is_front;
        let n: usize = self.first.len();
        let mut i: usize = 0;
        while i < n
            invariant
                i <= n,
                self.wf(),
                n == self.first@.len(),
                n == self.second@.len(),
                self.width == old(self).width,
                self.height == old(self).height,
                self.clear_color == old(self).clear_color,
                self.double_buffered == old(self).double_buffered,
                self.first_is_front == old(self).first_is_front,
                color == self.clear_color,
                to_second == (self.double_buffered && self.first_is_front),
                to_second ==> self.first@ == old(self).first@,
                !to_second ==> self.second@ == old(self).second@,
                forall|j: int| 0 <= j < i ==> (if to_second { self.second@[j] } else { self.first@[j] }) == color,
            decreases n - i,
        {
            if to_second {
                self.second[i] = color;
            } else {
                self.first[i] = color;
            }
            i = i + 1;
        }
        assert(self@.back =~= old(self)@.cleared().back);
        assert(self@.front =~= old(self)@.cleared().front);
    }

    /// Draws a pixel into the back buffer. Returns whether `(x, y)` lies
    /// in the buffer.
    pub fn draw_pixel(&mut self, x: u16, y: u16, color: u16) -> (ok: bool)
        requires
            old(self).wf(),
        ensures
            final(self).wf(),
            ok == old(self)@.contains(x as int, y as int),
            final(self)@ == old(self)@.drawn(x as int, y as int, color),
    {
        if x < self.width && y < self.height {
            proof {
                lemma_pixel_index_bound(self.width as int, self.height as int, x as int, y as int);
                lemma_product_bound(self.width as int, self.height as int, 65535, 65535);
                lemma_product_bound(y as int, self.width as int, 65535, 65535);
            }
            let idx: usize = (y as usize) * (self.width as usize) + (x as usize);
            if self.double_buffered && self.first_is_front {
                self.second[idx] = color;
            } else {
                self.first[idx] = color;
            }
            true
        } else {
            false
        }
    }

    /// Reads a pixel of the front buffer; outside the buffer it reads 0.
    pub fn get_pixel(&self, x: u16, y: u16) -> (c: u16)
        requires
            self.wf(),
        ensures
            c == self@.shown(x as int, y as int),
    {
        if x < self.width && y < self.height {
            proof {
                lemma_pixel_index_bound(self.width as int, self.height as int, x as int, y as int);
                lemma_product_bound(self.width as int, self.height as int, 65535, 65535);
                lemma_product_bound(y as int, self.width as int, 65535, 65535);
            }
            let idx: usize = (y as usize) * (self.width as usize) + (x as usize);
            if !self.double_buffered || self.first_is_front {
                self.first[idx]
            } else {
                self.second[idx]
            }
        } else {
            0x0000
        }
    }

    /// Reads a pixel of the back buffer; outside the buffer it reads 0.
    pub fn get_back_pixel(&self, x: u16, y: u16) -> (c: u16)
        requires
            self.wf(),
        ensures
            c == (if self@.contains(x as int, y as int) {
                self@.back[pixel_index(self@.width as int, x as int, y as int)]
            } else {
                0
            }),
    {
        if x < self.width && y < self.height {
            proof {
                lemma_pixel_index_bound(self.width as int, self.height as int, x as int, y as int);
                lemma_product_bound(self.width as int, self.height as int, 65535, 65535);
                lemma_product_bound(y as int, self.width as int, 65535, 65535);
            }
            let idx: usize = (y as usize) * (self.width as usize) + (x as usize);
            if self.double_buffered && self.first_is_front {
                self.second[idx]
            } else {
                self.first[idx]
            }
        } else {
            0x0000
        }
    }

    /// Exchanges front and back. With a single buffer there is nothing
    /// to exchange.
    pub fn swap_buffers(&mut self)
        requires
            old(self).wf(),
        ensures
            final(self).wf(),
            final(self)@ == old(self)@.swapped(),
    {
        if self.double_buffered {
            self.first_is_front = !self.first_is_front;
        }
    }

    /// The pixels shown: the front buffer, row by row.
    pub fn get_buffer(&self) -> (r: &Vec<u16>)
        ensures
            r@ == self@.front,
    {
        if !self.double_buffered || self.first_is_front {
            &self.first
        } else {
            &self.second
        }
    }

    /// The pixels drawn to: the back buffer, row by row, to write. What
    /// is written becomes the back buffer; the frame buffer stays well
    /// formed as the slice keeps its length.
    pub fn get_back_buffer(&mut self) -> (r: &mut [u16])
        requires
            old(self).wf(),
        ensures
            r@ == old(self)@.back,
            final(r)@.len() == r@.len() ==> final(self).wf(),
            final(self)@ == (FrameState { back: final(r)@, front: if old(self)@.double_buffered {
                old(self)@.front
            } else {
                final(r)@
            }, ..old(self)@ }),
    {
        if self.double_buffered && self.first_is_front {
            self.second.as_mut_slice()
        } else {
            self.first.as_mut_slice()
        }
    }

    pub fn set_clear_color(&mut self, color: u16)
        requires
            old(self).wf(),
        ensures
            final(self).wf(),
            final(self)@ == (FrameState { clear_color: color, ..old(self)@ }),
    {
        self.clear_color = color;
    }

    pub fn get_resolution(&self) -> (r: (u16, u16))
        ensures
            r == (self@.width, self@.height),
    {
        (self.width, self.height)
    }
}

/// The depth buffer as contracts see it. Depths are Q16.16; a smaller
/// depth is nearer.
pub struct DepthState {
    pub width: u16,
    pub height: u16,
    pub data: Seq<i32>,
    pub enabled: bool,
    pub write_enabled: bool,
    pub test_enabled: bool,
    pub near_plane: i32,
    pub far_plane: i32,
}

impl DepthState {
    pub open spec fn valid(self) -> bool {
        self.data.len() == self.width * self.height
    }

    pub open spec fn contains(self, x: int, y: int) -> bool {
        0 <= x < self.width && 0 <= y < self.height
    }

    /// The buffer neither tests nor stores.
    pub open spec fn bypassed(self) -> bool {
        !self.enabled || !self.test_enabled
    }

    /// A pixel of depth `depth` at `(x, y)` is to be drawn: always with
    /// the test off, else inside the buffer where it is strictly nearer
    /// than what is stored.
    pub open spec fn passes(self, x: int, y: int, depth: i32) -> bool {
        self.bypassed() || (self.contains(x, y) && depth < self.data[pixel_index(self.width as int, x, y)])
    }

    /// The buffer after the test of a pixel: a pixel that passes a test
    /// that is on, with writing on, leaves its depth behind.
    pub open spec fn tested(self, x: int, y: int, depth: i32) -> DepthState {
        if !self.bypassed() && self.passes(x, y, depth) && self.write_enabled {
            DepthState { data: self.data.update(pixel_index(self.width as int, x, y), depth), ..self }
        } else {
            self
        }
    }

    /// A buffer with every pixel at the far depth, testing and writing.
    pub open spec fn fresh(width: u16, height: u16) -> DepthState {
        DepthState {
            width,
            height,
            data: Seq::new((width * height) as nat, |i: int| FAR_DEPTH),
            enabled: true,
            write_enabled: true,
            test_enabled: true,
            near_plane: DEFAULT_NEAR_PLANE,
            far_plane: DEFAULT_FAR_PLANE,
        }
    }

    pub open spec fn cleared(self, value: i32) -> DepthState {
        DepthState { data: Seq::new(self.data.len(), |i: int| value), ..self }
    }

    /// The depth stored at `(x, y)`; outside the buffer, the far depth.
    pub open spec fn depth_at(self, x: int, y: int) -> i32 {
        if self.contains(x, y) {
            self.data[pixel_index(self.width as int, x, y)]
        } else {
            FAR_DEPTH
        }
    }

    /// A view-space depth mapped linearly so that the near plane is 0 and
    /// the far plane 1; with both planes in one place, 0.
    pub open spec fn linearized(self, z_view: i32) -> int {
        if self.far_plane == self.near_plane {
            0
        } else {
            fx_div_spec(clamp_i32(z_view - self.near_plane), clamp_i32(self.far_plane - self.near_plane))
        }
    }
}

pub struct ZBuffer {
    width: u16,
    height: u16,
    data: Vec<i32>,
    enabled: bool,
    write_enabled: bool,
    test_enabled: bool,
    near_plane: i32,
    far_plane: i32,
}

impl View for ZBuffer {
    type V = DepthState;

    closed spec fn view(&self) -> DepthState {
        DepthState {
            width: self.width,
            height: self.height,
            data: self.data@,
            enabled: self.enabled,
            write_enabled: self.write_enabled,
            test_enabled: self.test_enabled,
            near_plane: self.near_plane,
            far_plane: self.far_plane,
        }
    }
}

/// Default near plane: 0.1.
pub const DEFAULT_NEAR_PLANE: i32 = 6554;

/// Default far plane: 1000.
pub const DEFAULT_FAR_PLANE: i32 = 65_536_000;

impl ZBuffer {
    pub open spec fn wf(&self) -> bool {
        self@.valid()
    }

    /// A buffer with every pixel at the far depth, testing and writing.
    pub fn new(width: u16, height: u16) -> (r: Self)
        ensures
            r.wf(),
            r@ == DepthState::fresh(width, height),
    {
        proof {
            lemma_product_bound(width as int, height as int, 65535, 65535);
        }
        let size: usize = (width as usize) * (height as usize);
        let data: Vec<i32> = vec![FAR_DEPTH; size];
        assert(data@ =~= Seq::new((width * height) as nat, |i: int| FAR_DEPTH));
        ZBuffer {
            width,
            height,
            data,
            enabled: true,
            write_enabled: true,
            test_enabled: true,
            near_plane: DEFAULT_NEAR_PLANE,
            far_plane: DEFAULT_FAR_PLANE,
        }
    }

    /// Sets every pixel to `value`.
    pub fn clear(&mut self, value: i32)
        requires
            old(self).wf(),
        ensures
            final(self).wf(),
            final(self)@ == old(self)@.cleared(value),
    {
        let n: usize = self.data.len();
        let mut i: usize = 0;
        while i < n
            invariant
                i <= n,
                n == self.data@.len(),
                self@ == (DepthState { data: self@.data, ..old(self)@ }),
                self.wf(),
                forall|j: int| 0 <= j < i ==> self@.data[j] == value,
            decreases n - i,
        {
            self.data[i] = value;
            i = i + 1;
        }
        assert(self@.data =~= old(self)@.cleared(value).data);
    }

    /// Tests a pixel against the stored depth and, where it passes and
    /// writing is on, stores its depth. Returns whether the pixel is to
    /// be drawn.
    pub fn test_and_write(&mut self, x: u16, y: u16, depth: i32) -> (pass: bool)
        requires
            old(self).wf(),
        ensures
            final(self).wf(),
            pass == old(self)@.passes(x as int, y as int, depth),
            final(self)@ == old(self)@.tested(x as int, y as int, depth),
    {
        if !self.enabled || !self.test_enabled {
            return true;
        }
        if x < self.width && y < self.height {
            proof {
                lemma_pixel_index_bound(self.width as int, self.height as int, x as int, y as int);
                lemma_product_bound(self.width as int, self.height as int, 65535, 65535);
                lemma_product_bound(y as int, self.width as int, 65535, 65535);
            }
            let idx: usize = (y as usize) * (self.width as usize) + (x as usize);
            if depth < self.data[idx] {
                if self.write_enabled {
                    self.data[idx] = depth;
                }
                true
            } else {
                false
            }
        } else {
            false
        }
    }

    pub fn get_depth(&self, x: u16, y: u16) -> (d: i32)
        requires
            self.wf(),
        ensures
            d == self@.depth_at(x as int, y as int),
    {
        if x < self.width && y < self.height {
            proof {
                lemma_pixel_index_bound(self.width as int, self.height as int, x as int, y as int);
                lemma_product_bound(self.width as int, self.height as int, 65535, 65535);
                lemma_product_bound(y as int, self.width as int, 65535, 65535);
            }
            let idx: usize = (y as usize) * (self.width as usize) + (x as usize);
            self.data[idx]
        } else {
            FAR_DEPTH
        }
    }

    pub fn set_enabled(&mut self, enabled: bool)
        requires
            old(self).wf(),
        ensures
            final(self).wf(),
            final(self)@ == (DepthState { enabled, ..old(self)@ }),
    {
        self.enabled = enabled;
    }

    pub fn set_write_enabled(&mut self, enabled: bool)
        requires
            old(self).wf(),
        ensures
            final(self).wf(),
            final(self)@ == (DepthState { write_enabled: enabled, ..old(self)@ }),
    {
        self.write_enabled = enabled;
    }

    pub fn set_test_enabled(&mut self, enabled: bool)
        requires
            old(self).wf(),
        ensures
            final(self).wf(),
            final(self)@ == (DepthState { test_enabled: enabled, ..old(self)@ }),
    {
        self.test_enabled = enabled;
    }

    pub fn set_planes(&mut self, near: i32, far: i32)
        requires
            old(self).wf(),
        ensures
            final(self).wf(),
            final(self)@ == (DepthState { near_plane: near, far_plane: far, ..old(self)@ }),
    {
        self.near_plane = near;
        self.far_plane = far;
    }

    /// Maps a view-space depth to the range that the planes span.
    pub fn linearize_depth(&self, z_view: i32) -> (d: i32)
        ensures
            d == self@.linearized(z_view),
    {
        if self.far_plane == self.near_plane {
            0
        } else {
            let num = saturate_i32((z_view as i64) - (self.near_plane as i64));
            let den = saturate_i32((self.far_plane as i64) - (self.near_plane as i64));
            fx_div(num, den)
        }
    }
}

/// In a buffer cleared to the far depth, with the test on, every pixel
/// inside the buffer that is nearer than the far depth passes.
pub proof fn lemma_first_write_passes(z: DepthState, x: int, y: int, depth: i32)
    requires
        z.valid(),
        z.contains(x, y),
        depth < FAR_DEPTH,
    ensures
        z.cleared(FAR_DEPTH).passes(x, y, depth),
{
    lemma_pixel_index_bound(z.width as int, z.height as int, x, y);
}

} // verus!
