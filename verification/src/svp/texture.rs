//! Textures, the sixteen-slot texture cache and the texture unit.
//!
//! Texture coordinates are Q16.16 fixed-point numbers: 0 is the left or
//! upper edge of a texture, `ONE` the right or lower edge.

use vstd::prelude::*;
use vstd::arithmetic::div_mod::lemma_mod_multiples_vanish;
use vstd::arithmetic::div_mod::lemma_mod_pos_bound;
use crate::bits::{lo_byte, hi_byte, word_of, low_byte, high_byte, make_word};
use crate::svp::fixed::{lerp_spec, lerp_u16, lemma_product_bound, split_fixed};
use crate::svp::map::TEXRAM_BYTES;

verus! {

/// Slots in the texture cache, and texture ids.
pub const CACHE_SLOTS: usize = 16;

/// Bytes of texture memory set aside for each texture id.
pub const TEXTURE_STRIDE: u32 = 0x2000;

/// Side of the square texture that a bind loads.
pub const DEFAULT_TEXTURE_SIDE: u16 = 64;

/// Colour sampled when the bound texture is not in the cache.
pub const MISSING_TEXTURE_COLOR: u16 = 0x7C00;

/// Colour sampled when no texture is bound.
pub const UNBOUND_COLOR: u16 = 0x0000;

#[derive(Clone, Copy, Debug, PartialEq, Eq, Structural)]
pub enum TextureFormat {
    /// Sixteen colours, two pixels to a byte.
    Indexed4,
    /// 256 colours, one pixel to a byte.
    Indexed8,
    /// Direct colour, five bits a channel.
    RGB555,
    /// Direct colour, 5-6-5.
    RGB565,
}

#[derive(Clone, Copy, Debug, PartialEq, Eq, Structural)]
pub enum TextureFilter {
    Nearest,
    Bilinear,
}

#[derive(Clone, Copy, Debug, PartialEq, Eq, Structural)]
pub enum TextureWrap {
    Repeat,
    Clamp,
    Mirror,
}

/// Bytes that `pixels` pixels of a format take in texture memory.
pub open spec fn format_bytes(format: TextureFormat, pixels: int) -> int {
    match format {
        TextureFormat::Indexed4 => pixels / 2,
        TextureFormat::Indexed8 => pixels,
        TextureFormat::RGB555 => pixels * 2,
        TextureFormat::RGB565 => pixels * 2,
    }
}

/// Pixels that the stored bytes of a texture of `pixels` pixels cover: all
/// of them, but for the last pixel of an odd-sized 4-bit texture.
pub open spec fn stored_pixels(format: TextureFormat, pixels: int) -> int {
    match format {
        TextureFormat::Indexed4 => (pixels / 2) * 2,
        _ => pixels,
    }
}

/// Entries of the palette that a texture of a format carries.
pub open spec fn palette_len(format: TextureFormat) -> int {
    match format {
        TextureFormat::Indexed4 => 16,
        TextureFormat::Indexed8 => 256,
        _ => 0,
    }
}

/// Pixel `i` of a texture of `format` stored at byte `base`.
pub open spec fn stored_pixel(texram: Seq<u8>, base: int, format: TextureFormat, i: int) -> u16 {
    match format {
        TextureFormat::Indexed4 => if i % 2 == 0 {
            (texram[base + i / 2] % 16) as u16
        } else {
            (texram[base + i / 2] / 16) as u16
        },
        TextureFormat::Indexed8 => texram[base + i] as u16,
        _ => word_of(texram[base + 2 * i], texram[base + 2 * i + 1]),
    }
}

/// Byte `k` of the stored form of the pixels `data`.
pub open spec fn stored_byte(data: Seq<u16>, format: TextureFormat, k: int) -> u8 {
    match format {
        TextureFormat::Indexed4 => ((data[2 * k] % 16) + (data[2 * k + 1] % 16) * 16) as u8,
        TextureFormat::Indexed8 => (data[k] % 256) as u8,
        _ => if k % 2 == 0 {
            lo_byte(data[k / 2])
        } else {
            hi_byte(data[k / 2])
        },
    }
}

/// The pixel buffer after a load: the stored pixels as texture memory
/// holds them, and behind them what was there before.
pub open spec fn loaded_pixels(before: Seq<u16>, texram: Seq<u8>, base: int, format: TextureFormat) -> Seq<u16> {
    Seq::new(
        before.len(),
        |i: int|
            if i < stored_pixels(format, before.len() as int) {
                stored_pixel(texram, base, format, i)
            } else {
                before[i]
            },
    )
}

/// Texture memory after a save: the stored form of the pixels from `base`
/// on, and everywhere else what was there before.
pub open spec fn saved_texram(before: Seq<u8>, data: Seq<u16>, base: int, format: TextureFormat) -> Seq<u8> {
    Seq::new(
        before.len(),
        |j: int|
            if base <= j < base + format_bytes(format, data.len() as int) {
                stored_byte(data, format, j - base)
            } else {
                before[j]
            },
    )
}

/// Reads pixel `i` of a stored texture.
pub fn decode_pixel(texram: &[u8; 131072], base: usize, format: TextureFormat, i: usize) -> (c: u16)
    requires
        base + format_bytes(format, i + 1) <= TEXRAM_BYTES,
        format == TextureFormat::Indexed4 ==> base + i / 2 < TEXRAM_BYTES,
    ensures
        c == stored_pixel(texram@, base as int, format, i as int),
{
    match format {
        TextureFormat::Indexed4 => {
            let byte = texram[base + i / 2];
            if i % 2 == 0 {
                (byte % 16) as u16
            } else {
                (byte / 16) as u16
            }
        },
        TextureFormat::Indexed8 => texram[base + i] as u16,
        _ => make_word(texram[base + 2 * i], texram[base + 2 * i + 1]),
    }
}

/// Forms byte `k` of the stored form of a pixel buffer.
pub fn encode_byte(data: &Vec<u16>, format: TextureFormat, k: usize) -> (b: u8)
    requires
        k < format_bytes(format, data@.len() as int),
    ensures
        b == stored_byte(data@, format, k as int),
{
    let n: usize = data.len();
    assert(k < format_bytes(format, n as int));
    match format {
        TextureFormat::Indexed4 => ((data[2 * k] % 16) + (data[2 * k + 1] % 16) * 16) as u8,
        TextureFormat::Indexed8 => (data[k] % 256) as u8,
        _ => if k % 2 == 0 {
            low_byte(data[k / 2])
        } else {
            high_byte(data[k / 2])
        },
    }
}

/// A texture coordinate brought into `[0, ONE]` by a wrap mode.
pub open spec fn wrap_unit(u: int, mode: TextureWrap) -> int {
    match mode {
        TextureWrap::Repeat => u % 0x1_0000,
        TextureWrap::Clamp => if u < 0 {
            0
        } else if u > 0x1_0000 {
            0x1_0000
        } else {
            u
        },
        TextureWrap::Mirror => {
            let t = u % 0x2_0000;
            if t < 0x1_0000 {
                t
            } else {
                0x2_0000 - t
            }
        },
    }
}

/// The texel that a wrapped coordinate selects along an axis of `size`
/// texels.
pub open spec fn texel_of(wrapped: int, size: int) -> int {
    if size == 0 {
        0
    } else if (wrapped * size) / 0x1_0000 >= size {
        size - 1
    } else {
        (wrapped * size) / 0x1_0000
    }
}

/// An integer texel coordinate brought into `[0, size)` by a wrap mode.
pub open spec fn wrap_texel(coord: int, size: int, mode: TextureWrap) -> int
    recommends
        size > 0,
{
    match mode {
        TextureWrap::Repeat => coord % size,
        TextureWrap::Clamp => if coord < 0 {
            0
        } else if coord >= size {
            size - 1
        } else {
            coord
        },
        TextureWrap::Mirror => {
            let pos = coord % (2 * size);
            if pos < size {
                pos
            } else {
                2 * size - pos - 1
            }
        },
    }
}

pub open spec fn red_of(c: u16) -> int {
    (c as int / 1024) % 32
}

pub open spec fn green_of(c: u16) -> int {
    (c as int / 32) % 32
}

pub open spec fn blue_of(c: u16) -> int {
    c as int % 32
}

/// The colour of three five-bit channels.
pub open spec fn rgb_of(r: int, g: int, b: int) -> u16 {
    (r * 1024 + g * 32 + b) as u16
}

/// The channel-wise blend of two colours.
pub open spec fn blend_rgb(c1: u16, c2: u16, t: int) -> u16 {
    rgb_of(
        lerp_spec(red_of(c1), red_of(c2), t),
        lerp_spec(green_of(c1), green_of(c2), t),
        lerp_spec(blue_of(c1), blue_of(c2), t),
    )
}

/// The blend of two palette indices, capped at 255.
pub open spec fn blend_index(c1: u16, c2: u16, t: int) -> u16 {
    if lerp_spec(c1 as int, c2 as int, t) > 255 {
        255
    } else {
        lerp_spec(c1 as int, c2 as int, t) as u16
    }
}

/// Blends two 5-5-5 colours channel by channel; `t` runs from 0 to `ONE`.
pub fn interpolate_rgb(c1: u16, c2: u16, t: u32) -> (r: u16)
    requires
        t <= 0x1_0000,
    ensures
        r == blend_rgb(c1, c2, t as int),
{
    let r = lerp_u16((c1 / 1024) % 32, (c2 / 1024) % 32, t);
    let g = lerp_u16((c1 / 32) % 32, (c2 / 32) % 32, t);
    let b = lerp_u16(c1 % 32, c2 % 32, t);
    r * 1024 + g * 32 + b
}

pub struct Texture {
    pub id: u8,
    pub width: u16,
    pub height: u16,
    pub format: TextureFormat,
    pub data: Vec<u16>,
    pub base_addr: u32,
    pub palette: Vec<u16>,
    pub mip_levels: u8,
    pub filter: TextureFilter,
    pub wrap_u: TextureWrap,
    pub wrap_v: TextureWrap,
}

impl Texture {
    /// The pixel buffer holds exactly `width * height` pixels.
    pub open spec fn wf(&self) -> bool {
        self.data@.len() == self.width * self.height
    }

    pub open spec fn pixel_count(&self) -> int {
        self.width * self.height
    }

    /// The pixel at `(x, y)`, or 0 outside the pixel buffer.
    pub open spec fn pixel_at(&self, x: int, y: int) -> u16 {
        let idx = y * self.width + x;
        if 0 <= idx < self.data@.len() {
            self.data@[idx]
        } else {
            0
        }
    }

    /// The pixel at a texel coordinate after wrapping on both axes; of a
    /// texture without texels, 0.
    pub open spec fn wrapped_pixel_at(&self, x: int, y: int) -> u16 {
        if self.width == 0 || self.height == 0 {
            0
        } else {
            self.pixel_at(
                wrap_texel(x, self.width as int, self.wrap_u),
                wrap_texel(y, self.height as int, self.wrap_v),
            )
        }
    }

    /// The texel under the texture coordinates `(u, v)`.
    pub open spec fn texcoord_of(&self, u: int, v: int) -> (int, int) {
        (
            texel_of(wrap_unit(u, self.wrap_u), self.width as int),
            texel_of(wrap_unit(v, self.wrap_v), self.height as int),
        )
    }

    /// The colour that nearest-neighbour sampling gives at `(u, v)`.
    pub open spec fn nearest_at(&self, u: int, v: int) -> u16 {
        self.pixel_at(self.texcoord_of(u, v).0, self.texcoord_of(u, v).1)
    }

    /// The blend of two samples as the texture's format asks for it.
    pub open spec fn blend(&self, c1: u16, c2: u16, t: int) -> u16 {
        if self.format == TextureFormat::RGB555 || self.format == TextureFormat::RGB565 {
            blend_rgb(c1, c2, t)
        } else {
            blend_index(c1, c2, t)
        }
    }

    /// The colour that bilinear sampling gives at `(u, v)`: the four
    /// texels round the sample point, half a texel up and to the left,
    /// blended first along x and then along y.
    pub open spec fn bilinear_at(&self, u: int, v: int) -> u16 {
        let tx = u * self.width - 0x8000;
        let ty = v * self.height - 0x8000;
        let x0 = tx / 0x1_0000;
        let y0 = ty / 0x1_0000;
        let fx = tx % 0x1_0000;
        let fy = ty % 0x1_0000;
        let top = self.blend(self.wrapped_pixel_at(x0, y0), self.wrapped_pixel_at(x0 + 1, y0), fx);
        let bottom = self.blend(
            self.wrapped_pixel_at(x0, y0 + 1),
            self.wrapped_pixel_at(x0 + 1, y0 + 1),
            fx,
        );
        blend_rgb(top, bottom, fy)
    }

    /// The texture lies inside texture memory.
    pub open spec fn fits_texram(&self) -> bool {
        self.base_addr + format_bytes(self.format, self.pixel_count()) <= TEXRAM_BYTES
    }

    /// A blank texture: all pixels 0, the palette sized by the format,
    /// one mip level, nearest filtering, repeat on both axes.
    pub fn new(id: u8, width: u16, height: u16, format: TextureFormat, base_addr: u32) -> (t: Self)
        ensures
            t.wf(),
            t.id == id,
            t.width == width,
            t.height == height,
            t.format == format,
            t.base_addr == base_addr,
            t.data@ == Seq::new((width * height) as nat, |i: int| 0u16),
            t.palette@ == Seq::new(palette_len(format) as nat, |i: int| 0u16),
            t.mip_levels == 1,
            t.filter == TextureFilter::Nearest,
            t.wrap_u == TextureWrap::Repeat,
            t.wrap_v == TextureWrap::Repeat,
    {
        proof {
            lemma_product_bound(width as int, height as int, 65535, 65535);
        }
        let pixel_count: usize = (width as usize) * (height as usize);
        let data: Vec<u16> = vec![0u16; pixel_count];
        let palette: Vec<u16> = match format {
            TextureFormat::Indexed4 => vec![0u16; 16],
            TextureFormat::Indexed8 => vec![0u16; 256],
            _ => Vec::new(),
        };
        assert(data@ =~= Seq::new((width * height) as nat, |i: int| 0u16));
        assert(palette@ =~= Seq::new(palette_len(format) as nat, |i: int| 0u16));
        Texture {
            id,
            width,
            height,
            format,
            data,
            base_addr,
            palette,
            mip_levels: 1,
            filter: TextureFilter::Nearest,
            wrap_u: TextureWrap::Repeat,
            wrap_v: TextureWrap::Repeat,
        }
    }

    /// Bytes that the texture takes in texture memory.
    pub fn size_bytes(&self) -> (r: u64)
        ensures
            r == format_bytes(self.format, self.pixel_count()),
            r <= 2 * 65535 * 65535,
    {
        proof {
            lemma_product_bound(self.width as int, self.height as int, 65535, 65535);
        }
        let pixel_count: u64 = (self.width as u64) * (self.height as u64);
        match self.format {
            TextureFormat::Indexed4 => pixel_count / 2,
            TextureFormat::Indexed8 => pixel_count,
            TextureFormat::RGB555 => pixel_count * 2,
            TextureFormat::RGB565 => pixel_count * 2,
        }
    }

    /// Maps texture coordinates to a texel, wrapping each axis by its own
    /// mode.
    pub fn uv_to_texcoord(&self, u: i32, v: i32) -> (r: (u16, u16))
        ensures
            r.0 == self.texcoord_of(u as int, v as int).0,
            r.1 == self.texcoord_of(u as int, v as int).1,
            self.width > 0 ==> r.0 < self.width,
            self.height > 0 ==> r.1 < self.height,
    {
        let (uw, vw) = self.apply_wrapping(u, v);
        (axis_texel(uw, self.width), axis_texel(vw, self.height))
    }

    fn apply_wrapping(&self, u: i32, v: i32) -> (r: (u32, u32))
        ensures
            r.0 == wrap_unit(u as int, self.wrap_u),
            r.1 == wrap_unit(v as int, self.wrap_v),
            r.0 <= 0x1_0000,
            r.1 <= 0x1_0000,
    {
        (wrap_coordinate_unit(u, self.wrap_u), wrap_coordinate_unit(v, self.wrap_v))
    }

    pub fn sample_nearest(&self, u: i32, v: i32) -> (c: u16)
        ensures
            c == self.nearest_at(u as int, v as int),
    {
        let (x, y) = self.uv_to_texcoord(u, v);
        self.get_pixel(x, y)
    }

    pub fn sample_bilinear(&self, u: i32, v: i32) -> (c: u16)
        ensures
            c == self.bilinear_at(u as int, v as int),
    {
        proof {
            lemma_product_bound(u as int, self.width as int, 0x8000_0000, 65535);
            lemma_product_bound(v as int, self.height as int, 0x8000_0000, 65535);
        }
        let tx: i64 = (u as i64) * (self.width as i64) - 0x8000;
        let ty: i64 = (v as i64) * (self.height as i64) - 0x8000;
        let (x0, fx) = split_fixed(tx);
        let (y0, fy) = split_fixed(ty);
        let p00 = self.get_pixel_wrapped(x0, y0);
        let p10 = self.get_pixel_wrapped(x0 + 1, y0);
        let p01 = self.get_pixel_wrapped(x0, y0 + 1);
        let p11 = self.get_pixel_wrapped(x0 + 1, y0 + 1);
        let top = self.interpolate_color(p00, p10, fx);
        let bottom = self.interpolate_color(p01, p11, fx);
        self.interpolate_color_u16(top, bottom, fy)
    }

    fn get_pixel_wrapped(&self, x: i64, y: i64) -> (c: u16)
        requires
            -0x1_0000_0000 <= x <= 0x1_0000_0000,
            -0x1_0000_0000 <= y <= 0x1_0000_0000,
        ensures
            c == self.wrapped_pixel_at(x as int, y as int),
    {
        if self.width == 0 || self.height == 0 {
            return 0;
        }
        let wx = self.wrap_coordinate(x, self.width, self.wrap_u);
        let wy = self.wrap_coordinate(y, self.height, self.wrap_v);
        self.get_pixel(wx, wy)
    }

    fn wrap_coordinate(&self, coord: i64, max: u16, mode: TextureWrap) -> (r: u16)
        requires
            max > 0,
            -0x1_0000_0000 <= coord <= 0x1_0000_0000,
        ensures
            r == wrap_texel(coord as int, max as int, mode),
            r < max,
    {
        let size: i64 = max as i64;
        match mode {
            TextureWrap::Repeat => {
                proof {
                    lemma_mod_multiples_vanish(0x2_0000_0000, coord as int, size as int);
                    assert(0x2_0000_0000 <= size * 0x2_0000_0000 <= 65535 * 0x2_0000_0000)
                        by (nonlinear_arith)
                        requires
                            0 < size <= 65535,
                    ;
                    lemma_mod_pos_bound(coord + size * 0x2_0000_0000, size as int);
                }
                let shifted: u64 = (coord + size * 0x2_0000_0000) as u64;
                (shifted % (max as u64)) as u16
            },
            TextureWrap::Clamp => {
                if coord < 0 {
                    0
                } else if coord >= size {
                    max - 1
                } else {
                    coord as u16
                }
            },
            TextureWrap::Mirror => {
                let period: i64 = 2 * size;
                proof {
                    lemma_mod_multiples_vanish(0x1_0000_0000, coord as int, period as int);
                    assert(0x2_0000_0000 <= period * 0x1_0000_0000 <= 131070 * 0x1_0000_0000)
                        by (nonlinear_arith)
                        requires
                            2 <= period <= 131070,
                    ;
                    lemma_mod_pos_bound(coord + period * 0x1_0000_0000, period as int);
                }
                let shifted: u64 = (coord + period * 0x1_0000_0000) as u64;
                let pos: u64 = shifted % (period as u64);
                if pos < max as u64 {
                    pos as u16
                } else {
                    ((period as u64) - pos - 1) as u16
                }
            },
        }
    }

    pub fn get_pixel(&self, x: u16, y: u16) -> (c: u16)
        ensures
            c == self.pixel_at(x as int, y as int),
    {
        proof {
            lemma_product_bound(y as int, self.width as int, 65535, 65535);
        }
        let idx: usize = (y as usize) * (self.width as usize) + (x as usize);
        if idx < self.data.len() {
            self.data[idx]
        } else {
            0x0000
        }
    }

    /// Stores a pixel; a position outside the pixel buffer is ignored.
    pub fn set_pixel(&mut self, x: u16, y: u16, color: u16)
        ensures
            y * old(self).width + x < old(self).data@.len() ==> *final(self) == (Texture {
                data: final(self).data,
                ..*old(self)
            }) && final(self).data@ == old(self).data@.update(y * old(self).width + x, color),
            y * old(self).width + x >= old(self).data@.len() ==> *final(self) == *old(self),
            old(self).wf() ==> final(self).wf(),
    {
        proof {
            lemma_product_bound(y as int, self.width as int, 65535, 65535);
        }
        let idx: usize = (y as usize) * (self.width as usize) + (x as usize);
        if idx < self.data.len() {
            self.data[idx] = color;
        }
    }

    /// Fills the pixel buffer from texture memory. A texture that reaches
    /// past the end of texture memory is left as it is.
    pub fn load_from_texram(&mut self, texram: &[u8; 131072]) -> (ok: bool)
        requires
            old(self).wf(),
        ensures
            final(self).wf(),
            ok == old(self).fits_texram(),
            *final(self) == (Texture { data: final(self).data, ..*old(self) }),
            ok ==> final(self).data@ == loaded_pixels(
                old(self).data@,
                texram@,
                old(self).base_addr as int,
                old(self).format,
            ),
            !ok ==> final(self).data@ == old(self).data@,
    {
        let size: u64 = self.size_bytes();
        if (self.base_addr as u64) + size > TEXRAM_BYTES as u64 {
            return false;
        }
        let start: usize = self.base_addr as usize;
        let format = self.format;
        let total: usize = self.data.len();
        let count: usize = match format {
            TextureFormat::Indexed4 => (total / 2) * 2,
            _ => total,
        };
        let mut i: usize = 0;
        while i < count
            invariant
                i <= count,
                count == stored_pixels(format, total as int),
                total == self.data@.len(),
                total == old(self).data@.len(),
                start + format_bytes(format, total as int) <= TEXRAM_BYTES,
                *self == (Texture { data: self.data, ..*old(self) }),
                forall|j: int| 0 <= j < i ==> self.data@[j] == stored_pixel(texram@, start as int, format, j),
                forall|j: int| i <= j < total ==> self.data@[j] == old(self).data@[j],
            decreases count - i,
        {
            let c = decode_pixel(texram, start, format, i);
            self.data[i] = c;
            i = i + 1;
        }
        assert(self.data@ =~= loaded_pixels(old(self).data@, texram@, start as int, format));
        true
    }

    /// Writes the pixel buffer back to texture memory. A texture that
    /// reaches past the end of texture memory writes nothing.
    pub fn save_to_texram(&self, texram: &mut [u8; 131072]) -> (ok: bool)
        requires
            self.wf(),
        ensures
            ok == self.fits_texram(),
            ok ==> final(texram)@ == saved_texram(old(texram)@, self.data@, self.base_addr as int, self.format),
            !ok ==> final(texram)@ == old(texram)@,
    {
        let size: u64 = self.size_bytes();
        if (self.base_addr as u64) + size > TEXRAM_BYTES as u64 {
            return false;
        }
        let start: usize = self.base_addr as usize;
        let count: usize = size as usize;
        let format = self.format;
        let mut k: usize = 0;
        while k < count
            invariant
                k <= count,
                count == format_bytes(format, self.data@.len() as int),
                start + count <= TEXRAM_BYTES,
                forall|j: int| start <= j < start + k ==> texram@[j] == stored_byte(self.data@, format, j - start),
                forall|j: int| 0 <= j < start || start + k <= j < TEXRAM_BYTES ==> texram@[j] == old(texram)@[j],
            decreases count - k,
        {
            let b = encode_byte(&self.data, format, k);
            texram[start + k] = b;
            k = k + 1;
        }
        assert(texram@ =~= saved_texram(old(texram)@, self.data@, start as int, format));
        true
    }

    fn interpolate_color(&self, c1: u16, c2: u16, t: u32) -> (r: u16)
        requires
            t <= 0x1_0000,
        ensures
            r == self.blend(c1, c2, t as int),
    {
        match self.format {
            TextureFormat::RGB555 => self.interpolate_color_u16(c1, c2, t),
            TextureFormat::RGB565 => self.interpolate_color_u16(c1, c2, t),
            _ => {
                let mixed = lerp_u16(c1, c2, t);
                if mixed > 255 {
                    255
                } else {
                    mixed
                }
            },
        }
    }

    fn interpolate_color_u16(&self, c1: u16, c2: u16, t: u32) -> (r: u16)
        requires
            t <= 0x1_0000,
        ensures
            r == blend_rgb(c1, c2, t as int),
    {
        interpolate_rgb(c1, c2, t)
    }
}

/// Brings a texture coordinate into `[0, ONE]`.
pub fn wrap_coordinate_unit(u: i32, mode: TextureWrap) -> (r: u32)
    ensures
        r == wrap_unit(u as int, mode),
        r <= 0x1_0000,
{
    match mode {
        TextureWrap::Repeat => {
            let shifted: u64 = ((u as i64) + 0x8000_0000) as u64;
            (shifted % 0x1_0000) as u32
        },
        TextureWrap::Clamp => {
            if u < 0 {
                0
            } else if u > 0x1_0000 {
                0x1_0000
            } else {
                u as u32
            }
        },
        TextureWrap::Mirror => {
            let shifted: u64 = ((u as i64) + 0x8000_0000) as u64;
            let t: u32 = (shifted % 0x2_0000) as u32;
            if t < 0x1_0000 {
                t
            } else {
                0x2_0000 - t
            }
        },
    }
}

/// The texel that a wrapped coordinate selects along one axis.
pub fn axis_texel(wrapped: u32, size: u16) -> (r: u16)
    requires
        wrapped <= 0x1_0000,
    ensures
        r == texel_of(wrapped as int, size as int),
        size > 0 ==> r < size,
{
    if size == 0 {
        0
    } else {
        proof {
            lemma_product_bound(wrapped as int, size as int, 0x1_0000, 65535);
        }
        let t: u64 = ((wrapped as u64) * (size as u64)) / 0x1_0000;
        if t >= size as u64 {
            size - 1
        } else {
            t as u16
        }
    }
}

} // verus!
