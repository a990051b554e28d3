//! The texture cache: sixteen slots, one for each texture id, with access
//! stamps for least-recently-used bookkeeping.

use vstd::prelude::*;
use crate::svp::texture::{Texture, CACHE_SLOTS};

verus! {

/// The cache as contracts see it.
pub struct CacheState {
    pub slots: Seq<Option<Texture>>,
    pub lru_counter: u32,
    pub lru_timestamps: Seq<u32>,
    pub hit_count: u32,
    pub miss_count: u32,
}

/// A counter one further, which stops at the top of its range.
pub open spec fn bumped(x: u32) -> u32 {
    if x < u32::MAX {
        (x + 1) as u32
    } else {
        x
    }
}

impl CacheState {
    /// Sixteen slots and stamps; the texture in slot `i` has id `i` and a
    /// pixel buffer of its own size; no stamp is ahead of the counter.
    pub open spec fn valid(self) -> bool {
        &&& self.slots.len() == CACHE_SLOTS
        &&& self.lru_timestamps.len() == CACHE_SLOTS
        &&& forall|i: int|
            0 <= i < CACHE_SLOTS ==> (#[trigger] self.slots[i] matches Some(t) ==> t.id == i && t.wf())
        &&& forall|i: int| 0 <= i < CACHE_SLOTS ==> #[trigger] self.lru_timestamps[i] <= self.lru_counter
    }

    pub open spec fn empty() -> CacheState {
        CacheState {
            slots: Seq::new(CACHE_SLOTS as nat, |i: int| None::<Texture>),
            lru_counter: 0,
            lru_timestamps: Seq::new(CACHE_SLOTS as nat, |i: int| 0u32),
            hit_count: 0,
            miss_count: 0,
        }
    }

    /// The texture with id `id` is cached.
    pub open spec fn contains(self, id: int) -> bool {
        0 <= id < CACHE_SLOTS && self.slots[id] is Some
    }

    /// Slot `id` stamped with the current count, and the count advanced.
    pub open spec fn touched(self, id: int) -> CacheState {
        CacheState {
            lru_timestamps: self.lru_timestamps.update(id, self.lru_counter),
            lru_counter: bumped(self.lru_counter),
            ..self
        }
    }

    /// The cache after a lookup of `id`.
    pub open spec fn looked_up(self, id: int) -> CacheState {
        if !(0 <= id < CACHE_SLOTS) {
            self
        } else if self.slots[id] is Some {
            CacheState { hit_count: bumped(self.hit_count), ..self.touched(id) }
        } else {
            CacheState { miss_count: bumped(self.miss_count), ..self }
        }
    }

    /// The cache after `t` was put into the slot of its id.
    pub open spec fn inserted(self, t: Texture) -> CacheState {
        if t.id < CACHE_SLOTS {
            CacheState { slots: self.slots.update(t.id as int, Some(t)), ..self.touched(t.id as int) }
        } else {
            self
        }
    }

    /// The cache without the texture `id`.
    pub open spec fn removed(self, id: int) -> CacheState {
        if 0 <= id < CACHE_SLOTS {
            CacheState { slots: self.slots.update(id, None), ..self }
        } else {
            self
        }
    }

    /// `slot` is the slot that the next eviction frees: the first empty
    /// one, or with none empty the first of those stamped earliest.
    pub open spec fn is_lru_slot(self, slot: int) -> bool {
        &&& 0 <= slot < CACHE_SLOTS
        &&& if exists|i: int| 0 <= i < CACHE_SLOTS && self.slots[i] is None {
            &&& self.slots[slot] is None
            &&& forall|j: int| 0 <= j < slot ==> self.slots[j] is Some
        } else {
            &&& forall|j: int| 0 <= j < CACHE_SLOTS ==> self.lru_timestamps[slot] <= self.lru_timestamps[j]
            &&& forall|j: int| 0 <= j < slot ==> self.lru_timestamps[slot] < self.lru_timestamps[j]
        }
    }
}

pub struct TextureCache {
    textures: Vec<Option<Texture>>,
    lru_counter: u32,
    lru_timestamps: [u32; 16],
    hit_count: u32,
    miss_count: u32,
}

impl View for TextureCache {
    type V = CacheState;

    closed spec fn view(&self) -> CacheState {
        CacheState {
            slots: self.textures@,
            lru_counter: self.lru_counter,
            lru_timestamps: self.lru_timestamps@,
            hit_count: self.hit_count,
            miss_count: self.miss_count,
        }
    }
}

/// Advances a counter, stopping at the top of its range.
pub fn bump(x: u32) -> (r: u32)
    ensures
        r == bumped(x),
{
    if x < u32::MAX {
        x + 1
    } else {
        x
    }
}

impl TextureCache {
    pub open spec fn wf(&self) -> bool {
        self@.valid()
    }

    pub fn new() -> (r: Self)
        ensures
            r.wf(),
            r@ == CacheState::empty(),
    {
        let mut textures: Vec<Option<Texture>> = Vec::new();
        let mut i: usize = 0;
        while i < CACHE_SLOTS
            invariant
                i <= CACHE_SLOTS,
                textures@.len() == i,
                forall|j: int| 0 <= j < i ==> textures@[j] is None,
            decreases CACHE_SLOTS - i,
        {
            textures.push(None);
            i = i + 1;
        }
        let r = TextureCache { textures, lru_counter: 0, lru_timestamps: [0; 16], hit_count: 0, miss_count: 0 };
        assert(r@.slots =~= CacheState::empty().slots);
        assert(r@.lru_timestamps =~= CacheState::empty().lru_timestamps);
        r
    }

    /// Looks a texture up and counts the hit or the miss; a hit also
    /// stamps the slot as the most recently used.
    pub fn get(&mut self, id: u8) -> (r: Option<&Texture>)
        requires
            old(self).wf(),
        ensures
            final(self).wf(),
            final(self)@ == old(self)@.looked_up(id as int),
            old(self)@.contains(id as int) ==> r == Some(&old(self)@.slots[id as int]->0),
            !old(self)@.contains(id as int) ==> r is None,
    {
        if (id as usize) < CACHE_SLOTS {
            if self.textures[id as usize].is_some() {
                self.hit_count = bump(self.hit_count);
                self.lru_timestamps[id as usize] = self.lru_counter;
                self.lru_counter = bump(self.lru_counter);
                self.textures[id as usize].as_ref()
            } else {
                self.miss_count = bump(self.miss_count);
                None
            }
        } else {
            None
        }
    }

    /// Looks a texture up without touching the statistics or the stamps.
    pub fn peek(&self, id: u8) -> (r: Option<&Texture>)
        requires
            self.wf(),
        ensures
            self@.contains(id as int) ==> r == Some(&self@.slots[id as int]->0),
            !self@.contains(id as int) ==> r is None,
            r matches Some(t) ==> t.wf() && t.id == id,
    {
        if (id as usize) < CACHE_SLOTS {
            self.textures[id as usize].as_ref()
        } else {
            None
        }
    }

    /// Hands out a cached texture for changes and stamps its slot. The
    /// cache then holds whatever the caller leaves in the texture.
    pub fn get_mut(&mut self, id: u8) -> (r: Option<&mut Texture>)
        requires
            old(self).wf(),
        ensures
            !old(self)@.contains(id as int) ==> r is None && final(self)@ == old(self)@,
            old(self)@.contains(id as int) ==> r is Some && *r->0 == old(self)@.slots[id as int]->0
                && final(self)@ == (CacheState {
                slots: old(self)@.slots.update(id as int, Some(*final(r->0))),
                ..old(self)@.touched(id as int)
            }),
    {
        if (id as usize) < CACHE_SLOTS {
            if self.textures[id as usize].is_some() {
                self.lru_timestamps[id as usize] = self.lru_counter;
                self.lru_counter = bump(self.lru_counter);
                self.textures[id as usize].as_mut()
            } else {
                None
            }
        } else {
            None
        }
    }

    /// Puts a texture into the slot of its id, replacing what was there,
    /// and stamps the slot. An id past the last slot is refused.
    pub fn insert(&mut self, texture: Texture) -> (ok: bool)
        requires
            old(self).wf(),
            texture.wf(),
        ensures
            final(self).wf(),
            ok == (texture.id < CACHE_SLOTS),
            final(self)@ == old(self)@.inserted(texture),
    {
        let id = texture.id;
        if (id as usize) < CACHE_SLOTS {
            self.textures[id as usize] = Some(texture);
            self.lru_timestamps[id as usize] = self.lru_counter;
            self.lru_counter = bump(self.lru_counter);
            true
        } else {
            false
        }
    }

    /// Takes a texture out of the cache.
    pub fn remove(&mut self, id: u8) -> (r: Option<Texture>)
        requires
            old(self).wf(),
        ensures
            final(self).wf(),
            final(self)@ == old(self)@.removed(id as int),
            old(self)@.contains(id as int) ==> r == old(self)@.slots[id as int],
            !old(self)@.contains(id as int) ==> r is None,
    {
        if (id as usize) < CACHE_SLOTS {
            self.textures[id as usize].take()
        } else {
            None
        }
    }

    /// The slot that an eviction would free.
    pub fn find_lru_slot(&self) -> (r: Option<usize>)
        requires
            self.wf(),
        ensures
            r is Some,
            self@.is_lru_slot(r->0 as int),
    {
        let mut i: usize = 0;
        while i < CACHE_SLOTS
            invariant
                i <= CACHE_SLOTS,
                self.wf(),
                forall|j: int| 0 <= j < i ==> self@.slots[j] is Some,
            decreases CACHE_SLOTS - i,
        {
            if self.textures[i].is_none() {
                return Some(i);
            }
            i = i + 1;
        }
        let mut best: usize = 0;
        let mut k: usize = 1;
        while k < CACHE_SLOTS
            invariant
                1 <= k <= CACHE_SLOTS,
                best < k,
                self.wf(),
                forall|j: int| 0 <= j < k ==> self@.lru_timestamps[best as int] <= self@.lru_timestamps[j],
                forall|j: int| 0 <= j < best ==> self@.lru_timestamps[best as int] < self@.lru_timestamps[j],
            decreases CACHE_SLOTS - k,
        {
            if self.lru_timestamps[k] < self.lru_timestamps[best] {
                best = k;
            }
            k = k + 1;
        }
        Some(best)
    }

    /// Empties every slot and zeroes the stamps and the statistics.
    pub fn clear(&mut self)
        requires
            old(self).wf(),
        ensures
            final(self).wf(),
            final(self)@ == CacheState::empty(),
    {
        let mut i: usize = 0;
        while i < CACHE_SLOTS
            invariant
                i <= CACHE_SLOTS,
                self.textures@.len() == CACHE_SLOTS,
                forall|j: int| 0 <= j < i ==> self.textures@[j] is None,
                forall|j: int| 0 <= j < i ==> self.lru_timestamps@[j] == 0,
            decreases CACHE_SLOTS - i,
        {
            self.textures[i] = None;
            self.lru_timestamps[i] = 0;
            i = i + 1;
        }
        self.lru_counter = 0;
        self.hit_count = 0;
        self.miss_count = 0;
        assert(self@.slots =~= CacheState::empty().slots);
        assert(self@.lru_timestamps =~= CacheState::empty().lru_timestamps);
    }

    /// Hits, misses, and the share of hits among all lookups as a Q16.16
    /// fraction (0 before the first lookup).
    pub fn stats(&self) -> (r: (u32, u32, u32))
        ensures
            r.0 == self@.hit_count,
            r.1 == self@.miss_count,
            r.2 == hit_rate_of(self@.hit_count, self@.miss_count),
    {
        let total: u64 = (self.hit_count as u64) + (self.miss_count as u64);
        let rate: u32 = if total > 0 {
            (((self.hit_count as u64) * 65536) / total) as u32
        } else {
            0
        };
        (self.hit_count, self.miss_count, rate)
    }
}

/// The share of hits among all lookups, in Q16.16.
pub open spec fn hit_rate_of(hits: u32, misses: u32) -> u32 {
    if hits + misses > 0 {
        ((hits * 65536) / (hits + misses)) as u32
    } else {
        0
    }
}

} // verus!
