//! The texture unit: the bound texture, the active palette, the filter
//! switches, and the cache they work on.

use vstd::prelude::*;
use crate::bits::{word_of, make_word};
use crate::svp::dma::SVPDmaController;
use crate::svp::map::TEXRAM_BYTES;
use crate::svp::texture::{
    format_bytes,
    stored_pixel,
    Texture,
    TextureFilter,
    TextureFormat,
    TextureWrap,
    CACHE_SLOTS,
    DEFAULT_TEXTURE_SIDE,
    MISSING_TEXTURE_COLOR,
    TEXTURE_STRIDE,
    UNBOUND_COLOR,
};
use crate::svp::texture_cache::{CacheState, TextureCache, bumped};

verus! {

/// Entries of the active palette.
pub const PALETTE_ENTRIES: usize = 256;

/// The unit as contracts see it.
pub struct UnitState {
    pub cache: CacheState,
    pub current_texture: Option<u8>,
    pub active_palette: Seq<u16>,
    pub bilinear_enabled: bool,
    pub mipmapping_enabled: bool,
    pub anisotropic_level: u8,
    pub stat_reg: u16,
    pub control_reg: u16,
}

/// `t` is texture `id` as a bind loads it: 64 by 64 texels of direct
/// 15-bit colour, read from the id's own 8 KiB of texture memory.
pub open spec fn is_default_texture(t: Texture, id: u8, texram: Seq<u8>) -> bool {
    &&& t.id == id
    &&& t.width == DEFAULT_TEXTURE_SIDE
    &&& t.height == DEFAULT_TEXTURE_SIDE
    &&& t.format == TextureFormat::RGB555
    &&& t.base_addr == id * TEXTURE_STRIDE
    &&& t.data@ == Seq::new(4096, |i: int| stored_pixel(texram, id * TEXTURE_STRIDE, TextureFormat::RGB555, i))
    &&& t.palette@.len() == 0
    &&& t.mip_levels == 1
    &&& t.filter == TextureFilter::Nearest
    &&& t.wrap_u == TextureWrap::Repeat
    &&& t.wrap_v == TextureWrap::Repeat
}

/// The bytes `[start, start + len)` of texture memory meet the bytes that
/// back the texture.
pub open spec fn overlaps(t: Texture, start: int, len: int) -> bool {
    start < t.base_addr + format_bytes(t.format, t.pixel_count()) && start + len > t.base_addr
}

/// The slots after every texture that meets `[start, start + len)` was
/// evicted.
pub open spec fn invalidated_slots(slots: Seq<Option<Texture>>, start: int, len: int) -> Seq<Option<Texture>> {
    Seq::new(
        slots.len(),
        |i: int|
            if slots[i] is Some && overlaps(slots[i]->0, start, len) {
                None
            } else {
                slots[i]
            },
    )
}

/// The palette as 256 little-endian words of texture memory from `base`.
pub open spec fn palette_from(texram: Seq<u8>, base: int) -> Seq<u16> {
    Seq::new(PALETTE_ENTRIES as nat, |i: int| word_of(texram[base + 2 * i], texram[base + 2 * i + 1]))
}

/// An anisotropy level brought into 1 to 16.
pub open spec fn anisotropy_of(level: u8) -> u8 {
    if level < 1 {
        1
    } else if level > 16 {
        16
    } else {
        level
    }
}

impl UnitState {
    pub open spec fn valid(self) -> bool {
        &&& self.cache.valid()
        &&& self.active_palette.len() == PALETTE_ENTRIES
        &&& 1 <= self.anisotropic_level <= 16
        &&& (self.current_texture matches Some(id) ==> id < CACHE_SLOTS)
    }

    pub open spec fn initial() -> UnitState {
        UnitState {
            cache: CacheState::empty(),
            current_texture: None,
            active_palette: Seq::new(PALETTE_ENTRIES as nat, |i: int| 0u16),
            bilinear_enabled: false,
            mipmapping_enabled: false,
            anisotropic_level: 1,
            stat_reg: 0,
            control_reg: 0,
        }
    }

    /// The colour that a sample at `(u, v)` gives: of the bound texture,
    /// bilinear where both the unit and the texture ask for it and
    /// nearest otherwise; a marker colour where the bound texture is not
    /// cached; black where none is bound.
    pub open spec fn sampled(self, u: int, v: int) -> u16 {
        match self.current_texture {
            None => UNBOUND_COLOR,
            Some(id) => match self.cache.slots[id as int] {
                None => MISSING_TEXTURE_COLOR,
                Some(t) => if self.bilinear_enabled && t.filter == TextureFilter::Bilinear {
                    t.bilinear_at(u, v)
                } else {
                    t.nearest_at(u, v)
                },
            },
        }
    }

    /// The unit after a bind of `id`, where `loaded` is what a miss
    /// loads: the id becomes the bound one and is looked up; on a miss
    /// the loaded texture enters its slot. An id past 15 changes
    /// nothing.
    pub open spec fn bound(self, id: u8, loaded: Texture) -> UnitState {
        if id >= CACHE_SLOTS {
            self
        } else if self.cache.contains(id as int) {
            UnitState { current_texture: Some(id), cache: self.cache.looked_up(id as int), ..self }
        } else {
            UnitState { current_texture: Some(id), cache: self.cache.looked_up(id as int).inserted(loaded), ..self }
        }
    }

    /// `after` is the unit after a bind of `id` over the texture memory
    /// `texram`: what a miss loads is the id's default texture.
    pub open spec fn binds_to(self, id: u8, texram: Seq<u8>, after: UnitState) -> bool {
        if id >= CACHE_SLOTS {
            after == self
        } else {
            let loaded = after.cache.slots[id as int]->0;
            &&& after == self.bound(id, loaded)
            &&& !self.cache.contains(id as int) ==> is_default_texture(loaded, id, texram)
        }
    }

    /// The unit after a write of `value` to the control register.
    pub open spec fn controlled(self, value: u16) -> UnitState {
        UnitState {
            control_reg: value,
            bilinear_enabled: value % 2 == 1,
            mipmapping_enabled: (value / 2) % 2 == 1,
            anisotropic_level: anisotropy_of(((value / 4) % 16) as u8),
            ..self
        }
    }
}

pub struct TextureUnit {
    cache: TextureCache,
    current_texture: Option<u8>,
    active_palette: [u16; 256],
    bilinear_enabled: bool,
    mipmapping_enabled: bool,
    anisotropic_level: u8,
    stat_reg: u16,
    control_reg: u16,
}

impl View for TextureUnit {
    type V = UnitState;

    closed spec fn view(&self) -> UnitState {
        UnitState {
            cache: self.cache@,
            current_texture: self.current_texture,
            active_palette: self.active_palette@,
            bilinear_enabled: self.bilinear_enabled,
            mipmapping_enabled: self.mipmapping_enabled,
            anisotropic_level: self.anisotropic_level,
            stat_reg: self.stat_reg,
            control_reg: self.control_reg,
        }
    }
}

impl TextureUnit {
    pub open spec fn wf(&self) -> bool {
        self@.valid()
    }

    pub fn new() -> (r: Self)
        ensures
            r.wf(),
            r@ == UnitState::initial(),
    {
        let r = TextureUnit {
            cache: TextureCache::new(),
            current_texture: None,
            active_palette: [0; 256],
            bilinear_enabled: false,
            mipmapping_enabled: false,
            anisotropic_level: 1,
            stat_reg: 0,
            control_reg: 0,
        };
        assert(r@.active_palette =~= UnitState::initial().active_palette);
        r
    }

    pub fn reset(&mut self)
        requires
            old(self).wf(),
        ensures
            final(self).wf(),
            final(self)@ == UnitState::initial(),
    {
        self.cache.clear();
        self.current_texture = None;
        self.active_palette = [0; 256];
        self.bilinear_enabled = false;
        self.mipmapping_enabled = false;
        self.anisotropic_level = 1;
        self.stat_reg = 0;
        self.control_reg = 0;
        assert(self@.active_palette =~= UnitState::initial().active_palette);
    }

    /// Makes `texture_id` the active texture. A texture that is not cached
    /// is loaded from texture memory on the spot; an id past 15 is
    /// refused and changes nothing.
    pub fn bind_texture(&mut self, texture_id: u8, texram: &[u8; 131072]) -> (ok: bool)
        requires
            old(self).wf(),
        ensures
            final(self).wf(),
            ok == (texture_id < CACHE_SLOTS),
            old(self)@.binds_to(texture_id, texram@, final(self)@),
            !ok ==> final(self)@ == old(self)@,
            ok ==> final(self)@.current_texture == Some(texture_id),
            ok ==> final(self)@.cache.contains(texture_id as int),
            ok ==> forall|i: int|
                0 <= i < CACHE_SLOTS && i != texture_id ==> final(self)@.cache.slots[i] == old(self)@.cache.slots[i],
            ok && old(self)@.cache.contains(texture_id as int) ==> final(self)@ == (UnitState {
                current_texture: Some(texture_id),
                cache: old(self)@.cache.looked_up(texture_id as int),
                ..old(self)@
            }),
            ok && !old(self)@.cache.contains(texture_id as int) ==> is_default_texture(
                final(self)@.cache.slots[texture_id as int]->0,
                texture_id,
                texram@,
            ) && final(self)@.cache.miss_count == bumped(old(self)@.cache.miss_count),
    {
        if (texture_id as usize) < CACHE_SLOTS {
            self.current_texture = Some(texture_id);
            let cached = self.cache.get(texture_id).is_some();
            if !cached {
                self.load_texture(texture_id, texram);
            }
            true
        } else {
            false
        }
    }

    /// Loads texture `texture_id` in the default layout into the cache.
    /// It fails, and changes nothing, where the id's share of texture
    /// memory does not exist.
    pub fn load_texture(&mut self, texture_id: u8, texram: &[u8; 131072]) -> (ok: bool)
        requires
            old(self).wf(),
        ensures
            final(self).wf(),
            ok == (texture_id < CACHE_SLOTS),
            !ok ==> final(self)@ == old(self)@,
            ok ==> is_default_texture(final(self)@.cache.slots[texture_id as int]->0, texture_id, texram@),
            ok ==> final(self)@.cache.contains(texture_id as int),
            ok ==> final(self)@ == (UnitState {
                cache: old(self)@.cache.inserted(final(self)@.cache.slots[texture_id as int]->0),
                ..old(self)@
            }),
    {
        let base_addr: u32 = (texture_id as u32) * TEXTURE_STRIDE;
        let mut texture = Texture::new(
            texture_id,
            DEFAULT_TEXTURE_SIDE,
            DEFAULT_TEXTURE_SIDE,
            TextureFormat::RGB555,
            base_addr,
        );
        if texture.load_from_texram(texram) {
            assert(texture.data@ =~= Seq::new(
                4096,
                |i: int| stored_pixel(texram@, texture_id * TEXTURE_STRIDE, TextureFormat::RGB555, i),
            ));
            self.cache.insert(texture);
            true
        } else {
            false
        }
    }

    pub fn unbind_texture(&mut self)
        requires
            old(self).wf(),
        ensures
            final(self).wf(),
            final(self)@ == (UnitState { current_texture: None, ..old(self)@ }),
    {
        self.current_texture = None;
    }

    /// Samples the active texture at `(u, v)`. The level of detail is
    /// taken and not used: textures have one level.
    pub fn sample(&self, u: i32, v: i32, lod: i32) -> (c: u16)
        requires
            self.wf(),
        ensures
            c == self@.sampled(u as int, v as int),
    {
        match self.current_texture {
            Some(texture_id) => {
                match self.cache.peek(texture_id) {
                    Some(texture) => {
                        if self.bilinear_enabled && texture.filter == TextureFilter::Bilinear {
                            texture.sample_bilinear(u, v)
                        } else {
                            texture.sample_nearest(u, v)
                        }
                    },
                    None => MISSING_TEXTURE_COLOR,
                }
            },
            None => UNBOUND_COLOR,
        }
    }

    pub fn set_palette_color(&mut self, index: u8, color: u16)
        requires
            old(self).wf(),
        ensures
            final(self).wf(),
            final(self)@ == (UnitState {
                active_palette: old(self)@.active_palette.update(index as int, color),
                ..old(self)@
            }),
    {
        self.active_palette[index as usize] = color;
    }

    pub fn get_palette_color(&self, index: u8) -> (c: u16)
        requires
            self.wf(),
        ensures
            c == self@.active_palette[index as int],
    {
        self.active_palette[index as usize]
    }

    /// Loads the 256 palette entries from texture memory. A palette that
    /// reaches past the end of texture memory is refused whole.
    pub fn load_palette(&mut self, base_addr: u32, texram: &[u8; 131072]) -> (ok: bool)
        requires
            old(self).wf(),
        ensures
            final(self).wf(),
            ok == (base_addr + 512 <= TEXRAM_BYTES),
            ok ==> final(self)@ == (UnitState {
                active_palette: palette_from(texram@, base_addr as int),
                ..old(self)@
            }),
            !ok ==> final(self)@ == old(self)@,
    {
        if (base_addr as u64) + 512 > TEXRAM_BYTES as u64 {
            return false;
        }
        let start: usize = base_addr as usize;
        let mut i: usize = 0;
        while i < PALETTE_ENTRIES
            invariant
                i <= PALETTE_ENTRIES,
                start + 512 <= TEXRAM_BYTES,
                self@ == (UnitState { active_palette: self@.active_palette, ..old(self)@ }),
                self@.active_palette.len() == PALETTE_ENTRIES,
                forall|j: int|
                    0 <= j < i ==> self@.active_palette[j] == word_of(
                        texram@[start + 2 * j],
                        texram@[start + 2 * j + 1],
                    ),
            decreases PALETTE_ENTRIES - i,
        {
            let idx: usize = start + i * 2;
            self.active_palette[i] = make_word(texram[idx], texram[idx + 1]);
            i = i + 1;
        }
        assert(self@.active_palette =~= palette_from(texram@, base_addr as int));
        true
    }

    /// Evicts what the next cycle of the DMA engine makes stale: every
    /// cached texture that shares a byte with the unit it will store.
    pub fn process_dma_transfer(&mut self, dma: &SVPDmaController)
        requires
            old(self).wf(),
            dma.wf(),
        ensures
            final(self).wf(),
            dma@.writes_texram() ==> final(self)@ == (UnitState {
                cache: CacheState {
                    slots: invalidated_slots(old(self)@.cache.slots, dma@.texram_offset(), 2),
                    ..old(self)@.cache
                },
                ..old(self)@
            }),
            !dma@.writes_texram() ==> final(self)@ == old(self)@,
    {
        match dma.texram_target() {
            Some(off) => {
                self.invalidate_affected_textures(off as u32, 2);
            },
            None => {},
        }
    }

    /// Evicts every cached texture whose bytes in texture memory meet
    /// `[start, start + len)`.
    pub fn invalidate_affected_textures(&mut self, start: u32, len: u32)
        requires
            old(self).wf(),
        ensures
            final(self).wf(),
            final(self)@ == (UnitState {
                cache: CacheState {
                    slots: invalidated_slots(old(self)@.cache.slots, start as int, len as int),
                    ..old(self)@.cache
                },
                ..old(self)@
            }),
    {
        let mut i: u8 = 0;
        while i < 16
            invariant
                i <= 16,
                self.wf(),
                old(self)@.cache.slots.len() == CACHE_SLOTS,
                self@ == (UnitState {
                    cache: CacheState { slots: self@.cache.slots, ..old(self)@.cache },
                    ..old(self)@
                }),
                forall|j: int|
                    0 <= j < i ==> self@.cache.slots[j] == invalidated_slots(
                        old(self)@.cache.slots,
                        start as int,
                        len as int,
                    )[j],
                forall|j: int| i <= j < CACHE_SLOTS ==> self@.cache.slots[j] == old(self)@.cache.slots[j],
            decreases 16 - i,
        {
            let stale = match self.cache.peek(i) {
                Some(texture) => {
                    let tex_start: u64 = texture.base_addr as u64;
                    let tex_end: u64 = tex_start + texture.size_bytes();
                    let dma_start: u64 = start as u64;
                    let dma_end: u64 = dma_start + (len as u64);
                    dma_start < tex_end && dma_end > tex_start
                },
                None => false,
            };
            if stale {
                self.cache.remove(i);
            }
            i = i + 1;
        }
        assert(self@.cache.slots =~= invalidated_slots(old(self)@.cache.slots, start as int, len as int));
    }

    pub fn set_bilinear_filter(&mut self, enabled: bool)
        requires
            old(self).wf(),
        ensures
            final(self).wf(),
            final(self)@ == (UnitState { bilinear_enabled: enabled, ..old(self)@ }),
    {
        self.bilinear_enabled = enabled;
    }

    pub fn set_mipmapping(&mut self, enabled: bool)
        requires
            old(self).wf(),
        ensures
            final(self).wf(),
            final(self)@ == (UnitState { mipmapping_enabled: enabled, ..old(self)@ }),
    {
        self.mipmapping_enabled = enabled;
    }

    /// Sets the anisotropy level, brought into 1 to 16.
    pub fn set_anisotropy(&mut self, level: u8)
        requires
            old(self).wf(),
        ensures
            final(self).wf(),
            final(self)@ == (UnitState { anisotropic_level: anisotropy_of(level), ..old(self)@ }),
    {
        self.anisotropic_level = if level < 1 {
            1
        } else if level > 16 {
            16
        } else {
            level
        };
    }

    /// Writes a register of the unit: 0 is control (bit 0 bilinear, bit 1
    /// mipmapping, bits 2 to 5 anisotropy), 1 loads the palette from
    /// `value * 512`, 2 binds the texture named by the low four bits.
    /// Other registers do not exist.
    pub fn write_register(&mut self, reg: u8, value: u16, texram: &[u8; 131072])
        requires
            old(self).wf(),
        ensures
            final(self).wf(),
            reg == 0 ==> final(self)@ == old(self)@.controlled(value),
            reg == 1 && value * 512 + 512 <= TEXRAM_BYTES ==> final(self)@ == (UnitState {
                active_palette: palette_from(texram@, value * 512),
                ..old(self)@
            }),
            reg == 1 && value * 512 + 512 > TEXRAM_BYTES ==> final(self)@ == old(self)@,
            reg == 2 ==> old(self)@.binds_to((value % 16) as u8, texram@, final(self)@),
            reg == 2 ==> final(self)@.current_texture == Some((value % 16) as u8)
                && final(self)@.cache.contains(value as int % 16),
            reg > 2 ==> final(self)@ == old(self)@,
    {
        if reg == 0 {
            self.control_reg = value;
            self.bilinear_enabled = value % 2 == 1;
            self.mipmapping_enabled = (value / 2) % 2 == 1;
            let anisotropy: u8 = ((value / 4) % 16) as u8;
            self.set_anisotropy(anisotropy);
        } else if reg == 1 {
            let base_addr: u32 = (value as u32) * 0x200;
            self.load_palette(base_addr, texram);
        } else if reg == 2 {
            let texture_id: u8 = (value % 16) as u8;
            self.bind_texture(texture_id, texram);
        }
    }

    /// Reads a register of the unit: 0 is status, 1 is control, the rest
    /// read as 0.
    pub fn read_register(&self, reg: u8) -> (r: u16)
        ensures
            r == (if reg == 0 {
                self@.stat_reg
            } else if reg == 1 {
                self@.control_reg
            } else {
                0
            }),
    {
        if reg == 0 {
            self.stat_reg
        } else if reg == 1 {
            self.control_reg
        } else {
            0x0000
        }
    }

    /// The texture that is bound, if any.
    pub fn current_texture(&self) -> (r: Option<u8>)
        ensures
            r == self@.current_texture,
    {
        self.current_texture
    }

    /// Whether texture `id` is in the cache.
    pub fn is_cached(&self, id: u8) -> (r: bool)
        requires
            self.wf(),
        ensures
            r == self@.cache.contains(id as int),
    {
        self.cache.peek(id).is_some()
    }

    /// Hits, misses and hit rate of the cache.
    pub fn get_stats(&self) -> (r: (u32, u32, u32))
        ensures
            r.0 == self@.cache.hit_count,
            r.1 == self@.cache.miss_count,
            r.2 == crate::svp::texture_cache::hit_rate_of(self@.cache.hit_count, self@.cache.miss_count),
    {
        self.cache.stats()
    }
}

/// The units that a run of binds goes through: each is the one before
/// it after the bind of the next id.
#[verifier::opaque]
pub open spec fn bound_in_turn(units: Seq<UnitState>, ids: Seq<u8>, texram: Seq<u8>) -> bool {
    &&& units.len() == ids.len() + 1
    &&& forall|k: int| 0 <= k < ids.len() ==> (#[trigger] units[k]).binds_to(ids[k], texram, units[k + 1])
}

/// A bind evicts nothing: every other slot keeps what it held, and the
/// texture that was bound is cached.
pub proof fn lemma_bind_evicts_nothing(before: UnitState, id: u8, texram: Seq<u8>, after: UnitState)
    requires
        before.valid(),
        before.binds_to(id, texram, after),
    ensures
        forall|j: int| 0 <= j < CACHE_SLOTS && j != id ==> after.cache.slots[j] == before.cache.slots[j],
        id < CACHE_SLOTS ==> after.cache.contains(id as int),
        id >= CACHE_SLOTS ==> after == before,
{
}

/// After `k` binds of ids below sixteen the access counter stands `k`
/// further, and the id bound at turn `j` carries the stamp of that turn
/// unless it was bound again later.
proof fn lemma_stamps_in_turn(units: Seq<UnitState>, ids: Seq<u8>, texram: Seq<u8>, k: int)
    requires
        units[0].valid(),
        bound_in_turn(units, ids, texram),
        0 <= k <= ids.len(),
        forall|j: int| 0 <= j < ids.len() ==> #[trigger] ids[j] < CACHE_SLOTS,
        units[0].cache.lru_counter + ids.len() < u32::MAX,
    ensures
        units[k].valid(),
        units[k].cache.lru_counter == units[0].cache.lru_counter + k,
        forall|j: int|
            0 <= j < k && (forall|m: int| j < m < k ==> ids[m] != ids[j]) ==> units[k].cache.contains(
                #[trigger] ids[j] as int,
            ) && units[k].cache.lru_timestamps[ids[j] as int] == units[0].cache.lru_counter + j,
    decreases k,
{
    reveal(bound_in_turn);
    if k > 0 {
        lemma_stamps_in_turn(units, ids, texram, k - 1);
        let before = units[k - 1];
        let after = units[k];
        let id = ids[k - 1];
        assert(before.binds_to(id, texram, after));
        assert(id < CACHE_SLOTS);
        assert forall|j: int| 0 <= j < k && (forall|m: int| j < m < k ==> ids[m] != ids[j]) implies after.cache.contains(
            #[trigger] ids[j] as int,
        ) && after.cache.lru_timestamps[ids[j] as int] == units[0].cache.lru_counter + j by {
            if j < k - 1 {
                assert(ids[k - 1] != ids[j]);
                assert(forall|m: int| j < m < k - 1 ==> ids[m] != ids[j]);
            }
        }
    }
}

/// Sixteen different ids below sixteen are all of them.
proof fn lemma_sixteen_ids_cover(ids: Seq<u8>, slot: int) -> (k: int)
    requires
        ids.len() == CACHE_SLOTS,
        forall|j: int| 0 <= j < ids.len() ==> #[trigger] ids[j] < CACHE_SLOTS,
        forall|i: int, j: int| 0 <= i < j < ids.len() ==> ids[i] != ids[j],
        0 <= slot < CACHE_SLOTS,
    ensures
        0 <= k < CACHE_SLOTS,
        ids[k] == slot,
{
    let found = ids.to_set();
    let all = Set::new(|v: u8| v < CACHE_SLOTS);
    assert(ids.no_duplicates());
    ids.unique_seq_to_set();
    let numbers = Seq::new(CACHE_SLOTS as nat, |i: int| i as u8);
    assert(numbers.no_duplicates());
    numbers.unique_seq_to_set();
    assert(numbers.to_set() =~= all) by {
        assert forall|v: u8| all.contains(v) implies numbers.to_set().contains(v) by {
            assert(numbers[v as int] == v);
        }
    }
    assert(found.subset_of(all)) by {
        assert forall|v: u8| found.contains(v) implies all.contains(v) by {
            let i = choose|i: int| 0 <= i < ids.len() && ids[i] == v;
        }
    }
    vstd::set_lib::lemma_subset_equality(found, all);
    assert(found.contains(slot as u8));
    choose|k: int| 0 <= k < ids.len() && ids[k] == slot as u8
}

/// In a full cache whose textures were last bound in the order `ids`,
/// the slot that the next eviction frees is the one bound first.
proof fn lemma_oldest_stamp_is_lru(cache: CacheState, ids: Seq<u8>, start: int)
    requires
        cache.valid(),
        ids.len() == CACHE_SLOTS,
        forall|j: int| 0 <= j < ids.len() ==> #[trigger] ids[j] < CACHE_SLOTS,
        forall|i: int, j: int| 0 <= i < j < ids.len() ==> ids[i] != ids[j],
        forall|j: int|
            0 <= j < CACHE_SLOTS ==> cache.contains(#[trigger] ids[j] as int) && cache.lru_timestamps[ids[j] as int]
                == start + j,
    ensures
        forall|slot: int| 0 <= slot < CACHE_SLOTS ==> cache.contains(slot),
        cache.is_lru_slot(ids[0] as int),
{
    assert forall|slot: int| 0 <= slot < CACHE_SLOTS implies cache.contains(slot) && cache.lru_timestamps[slot]
        >= start && (slot != ids[0] ==> cache.lru_timestamps[slot] > start) by {
        let k = lemma_sixteen_ids_cover(ids, slot);
        assert(cache.contains(ids[k] as int));
    }
    assert(cache.contains(ids[0] as int));
    let first = ids[0] as int;
    assert(cache.lru_timestamps[first] == start);
    assert forall|j: int| 0 <= j < CACHE_SLOTS implies cache.lru_timestamps[first] <= cache.lru_timestamps[j] by {
        assert(cache.contains(j));
    }
    assert forall|j: int| 0 <= j < first implies cache.lru_timestamps[first] < cache.lru_timestamps[j] by {
        assert(cache.contains(j));
    }
    assert(!(exists|i: int| 0 <= i < CACHE_SLOTS && cache.slots[i] is None)) by {
        assert forall|i: int| 0 <= i < CACHE_SLOTS implies cache.slots[i] is Some by {
            assert(cache.contains(i));
        }
    }
}

/// After sixteen different textures were bound in turn, with the access
/// counter short of its top, the cache is full and the slot that the
/// next eviction frees is the one of the texture bound first: the least
/// recently bound.
pub proof fn lemma_first_bound_is_next_evicted(units: Seq<UnitState>, ids: Seq<u8>, texram: Seq<u8>)
    requires
        units[0].valid(),
        bound_in_turn(units, ids, texram),
        ids.len() == CACHE_SLOTS,
        forall|j: int| 0 <= j < ids.len() ==> #[trigger] ids[j] < CACHE_SLOTS,
        forall|i: int, j: int| 0 <= i < j < ids.len() ==> ids[i] != ids[j],
        units[0].cache.lru_counter + CACHE_SLOTS < u32::MAX,
    ensures
        forall|slot: int| 0 <= slot < CACHE_SLOTS ==> units[CACHE_SLOTS as int].cache.contains(slot),
        units[CACHE_SLOTS as int].cache.is_lru_slot(ids[0] as int),
{
    let last = units[CACHE_SLOTS as int].cache;
    let start = units[0].cache.lru_counter as int;
    lemma_stamps_in_turn(units, ids, texram, CACHE_SLOTS as int);
    assert forall|j: int| 0 <= j < CACHE_SLOTS implies last.contains(#[trigger] ids[j] as int)
        && last.lru_timestamps[ids[j] as int] == start + j by {
        assert(forall|m: int| j < m < CACHE_SLOTS ==> #[trigger] ids[m] != ids[j]);
    }
    lemma_oldest_stamp_is_lru(last, ids, start);
}

} // verus!
