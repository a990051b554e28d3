//! The DMA engine: one 16-bit unit per cycle between working memory and
//! texture memory.

use vstd::prelude::*;
use crate::bits::{lo_byte, hi_byte, word_of, low_byte, high_byte, make_word, lemma_mask_u16};
use crate::svp::map::{chip_addr, in_dram_window, in_texram_window, mask_address, TEXRAM_BASE, TEXRAM_LAST, TEXRAM_BYTES};

verus! {

/// Which way a transfer runs.
#[derive(Clone, Copy, Debug, PartialEq, Eq, Structural)]
pub enum DmaDirection {
    DramToTexRam,
    TexRamToDram,
}

/// The registers of the engine, as contracts see them.
pub struct DmaState {
    pub src: u32,
    pub dst: u32,
    pub length: u16,
    pub active: bool,
    /// The way that the destination gave the transfer when it was set.
    pub direction: DmaDirection,
}

/// The way of a transfer to a destination: one inside the texture
/// window fills texture memory, any other fills working memory.
pub open spec fn direction_to(dst: u32) -> DmaDirection {
    if in_texram_window(dst) {
        DmaDirection::DramToTexRam
    } else {
        DmaDirection::TexRamToDram
    }
}

impl DmaState {
    /// Addresses fit 24 bits, the length 15, and an engine with nothing
    /// left to move is idle.
    pub open spec fn valid(self) -> bool {
        &&& self.src <= 0x00FF_FFFF
        &&& self.dst <= 0x00FF_FFFF
        &&& self.length <= 0x7FFF
        &&& (self.length == 0 ==> !self.active)
    }

    /// The engine at power-on: nothing to move, towards texture memory.
    pub open spec fn idle() -> DmaState {
        DmaState { src: 0, dst: 0, length: 0, active: false, direction: DmaDirection::DramToTexRam }
    }

    /// The next cycle stores a working-memory word into texture memory:
    /// the source names a word of working memory, and the destination
    /// two bytes of texture memory.
    pub open spec fn writes_texram(self) -> bool {
        &&& self.active
        &&& self.direction == DmaDirection::DramToTexRam
        &&& in_dram_window(self.src)
        &&& self.dst + 1 < TEXRAM_BYTES
    }

    /// The next cycle stores two texture-memory bytes into working
    /// memory: the source names two bytes of texture memory, and the
    /// destination a word of working memory.
    pub open spec fn writes_dram(self) -> bool {
        &&& self.active
        &&& self.direction == DmaDirection::TexRamToDram
        &&& self.src + 1 < TEXRAM_BYTES
        &&& in_dram_window(self.dst)
    }

    /// The byte of texture memory that the next cycle touches first:
    /// texture memory is numbered by the address itself.
    pub open spec fn texram_offset(self) -> int {
        if self.direction == DmaDirection::DramToTexRam {
            self.dst as int
        } else {
            self.src as int
        }
    }

    /// Word index in working memory that the next cycle touches.
    pub open spec fn dram_index(self) -> int {
        if self.direction == DmaDirection::DramToTexRam {
            self.src as int / 2
        } else {
            self.dst as int / 2
        }
    }

    /// The registers after one cycle: both addresses two further, one unit
    /// less to go, idle once none is left. An idle engine stays as it is.
    pub open spec fn step(self) -> DmaState {
        if !self.active {
            self
        } else {
            DmaState {
                src: ((self.src + 2) % 0x100_0000) as u32,
                dst: ((self.dst + 2) % 0x100_0000) as u32,
                length: (self.length - 1) as u16,
                active: self.length != 1,
                direction: self.direction,
            }
        }
    }

    /// The registers after `n` cycles.
    pub open spec fn steps(self, n: nat) -> DmaState
        decreases n,
    {
        if n == 0 {
            self
        } else {
            self.step().steps((n - 1) as nat)
        }
    }
}

/// Texture memory after one cycle of an engine in state `s`.
pub open spec fn texram_after(s: DmaState, dram: Seq<u16>, texram: Seq<u8>) -> Seq<u8> {
    if s.writes_texram() {
        let w = dram[s.dram_index()];
        let off = s.texram_offset();
        texram.update(off, lo_byte(w)).update(off + 1, hi_byte(w))
    } else {
        texram
    }
}

/// Working memory after one cycle of an engine in state `s`.
pub open spec fn dram_after(s: DmaState, dram: Seq<u16>, texram: Seq<u8>) -> Seq<u16> {
    if s.writes_dram() {
        let off = s.texram_offset();
        dram.update(s.dram_index(), word_of(texram[off], texram[off + 1]))
    } else {
        dram
    }
}

pub struct SVPDmaController {
    src_addr: u32,
    dst_addr: u32,
    length: u16,
    active: bool,
    direction: DmaDirection,
}

impl View for SVPDmaController {
    type V = DmaState;

    closed spec fn view(&self) -> DmaState {
        DmaState {
            src: self.src_addr,
            dst: self.dst_addr,
            length: self.length,
            active: self.active,
            direction: self.direction,
        }
    }
}

impl SVPDmaController {
    /// The invariant of the engine's registers.
    pub open spec fn wf(&self) -> bool {
        self@.valid()
    }

    pub fn new() -> (r: Self)
        ensures
            r.wf(),
            r@ == DmaState::idle(),
    {
        SVPDmaController {
            src_addr: 0,
            dst_addr: 0,
            length: 0,
            active: false,
            direction: DmaDirection::DramToTexRam,
        }
    }

    pub fn reset(&mut self)
        ensures
            final(self).wf(),
            final(self)@ == DmaState::idle(),
    {
        self.src_addr = 0;
        self.dst_addr = 0;
        self.length = 0;
        self.active = false;
        self.direction = DmaDirection::DramToTexRam;
    }

    pub fn set_source(&mut self, addr: u32)
        requires
            old(self).wf(),
        ensures
            final(self).wf(),
            final(self)@ == (DmaState { src: chip_addr(addr), ..old(self)@ }),
    {
        self.src_addr = mask_address(addr);
    }

    /// Sets the destination, which also gives the transfer its way.
    pub fn set_destination(&mut self, addr: u32)
        requires
            old(self).wf(),
        ensures
            final(self).wf(),
            final(self)@ == (DmaState {
                dst: chip_addr(addr),
                direction: direction_to(chip_addr(addr)),
                ..old(self)@
            }),
    {
        self.dst_addr = mask_address(addr);
        self.direction = if TEXRAM_BASE <= self.dst_addr && self.dst_addr <= TEXRAM_LAST {
            DmaDirection::DramToTexRam
        } else {
            DmaDirection::TexRamToDram
        };
    }

    /// Sets the number of units to move. A length of zero leaves nothing
    /// to do, so it also idles the engine.
    pub fn set_length(&mut self, length: u16)
        requires
            old(self).wf(),
        ensures
            final(self).wf(),
            final(self)@ == (DmaState {
                length: length & 0x7FFF,
                active: old(self)@.active && (length & 0x7FFF) != 0,
                ..old(self)@
            }),
    {
        proof {
            lemma_mask_u16(length, 0x7FFF);
        }
        let masked: u16 = length & 0x7FFF;
        self.length = masked;
        if masked == 0 {
            self.active = false;
        }
    }

    /// Starts the transfer. With nothing to move, or with a transfer
    /// already under way, the call changes nothing.
    pub fn start(&mut self)
        requires
            old(self).wf(),
        ensures
            final(self).wf(),
            final(self)@ == (DmaState { active: old(self)@.length != 0, ..old(self)@ }),
    {
        if !self.active && self.length != 0 {
            self.active = true;
        }
    }

    pub fn is_active(&self) -> (r: bool)
        ensures
            r == self@.active,
    {
        self.active
    }

    pub fn source_address(&self) -> (r: u32)
        ensures
            r == self@.src,
    {
        self.src_addr
    }

    pub fn destination_address(&self) -> (r: u32)
        ensures
            r == self@.dst,
    {
        self.dst_addr
    }

    pub fn length(&self) -> (r: u16)
        ensures
            r == self@.length,
    {
        self.length
    }

    pub fn direction(&self) -> (r: DmaDirection)
        ensures
            r == self@.direction,
    {
        self.direction
    }

    /// The byte offset in texture memory that the next cycle overwrites,
    /// if it overwrites any.
    pub fn texram_target(&self) -> (r: Option<usize>)
        requires
            self.wf(),
        ensures
            r is Some <==> self@.writes_texram(),
            r matches Some(off) ==> off == self@.texram_offset() && off + 1 < TEXRAM_BYTES,
    {
        match self.direction {
            DmaDirection::DramToTexRam => {
                if self.active && self.src_addr <= 0x3FFF && (self.dst_addr as usize) + 1 < TEXRAM_BYTES {
                    Some(self.dst_addr as usize)
                } else {
                    None
                }
            },
            DmaDirection::TexRamToDram => None,
        }
    }

    /// Moves one 16-bit unit, little-endian on the texture side, and
    /// advances the registers. Texture memory is numbered by the address
    /// itself: a unit to address `d` is bytes `d` and `d + 1`. An idle
    /// engine does nothing; a unit whose word or bytes do not lie in
    /// their memory is skipped whole.
    pub fn transfer_cycle(&mut self, dram: &mut [u16; 8192], texram: &mut [u8; 131072])
        requires
            old(self).wf(),
        ensures
            final(self).wf(),
            final(self)@ == old(self)@.step(),
            final(texram)@ == texram_after(old(self)@, old(dram)@, old(texram)@),
            final(dram)@ == dram_after(old(self)@, old(dram)@, old(texram)@),
    {
        if !self.active {
            return;
        }
        match self.direction {
            DmaDirection::DramToTexRam => {
                if self.src_addr <= 0x3FFF && (self.dst_addr as usize) + 1 < TEXRAM_BYTES {
                    let src_idx: usize = (self.src_addr / 2) as usize;
                    let off: usize = self.dst_addr as usize;
                    let word: u16 = dram[src_idx];
                    texram[off] = low_byte(word);
                    texram[off + 1] = high_byte(word);
                }
            },
            DmaDirection::TexRamToDram => {
                if (self.src_addr as usize) + 1 < TEXRAM_BYTES && self.dst_addr <= 0x3FFF {
                    let off: usize = self.src_addr as usize;
                    let dst_idx: usize = (self.dst_addr / 2) as usize;
                    dram[dst_idx] = make_word(texram[off], texram[off + 1]);
                }
            },
        }
        self.src_addr = (self.src_addr + 2) % 0x100_0000;
        self.dst_addr = (self.dst_addr + 2) % 0x100_0000;
        self.length = self.length - 1;
        if self.length == 0 {
            self.active = false;
        }
    }
}

/// An engine started with `n` units is busy after every smaller number of
/// cycles and idle after exactly `n`.
pub proof fn lemma_transfer_takes_length_cycles(s: DmaState, k: nat)
    requires
        s.valid(),
        s.active,
        k <= s.length,
    ensures
        s.steps(k).valid(),
        s.steps(k).length == s.length - k,
        s.steps(k).active == (k < s.length),
    decreases k,
{
    if k > 0 {
        lemma_steps_split(s, (k - 1) as nat);
        lemma_transfer_takes_length_cycles(s, (k - 1) as nat);
    }
}

/// Running `k + 1` cycles is running `k` and then one more.
pub proof fn lemma_steps_split(s: DmaState, k: nat)
    ensures
        s.steps(k + 1) == s.steps(k).step(),
    decreases k,
{
    assert(s.steps(k + 1) == s.step().steps(k));
    if k > 0 {
        lemma_steps_split(s.step(), (k - 1) as nat);
        assert(s.steps(k) == s.step().steps((k - 1) as nat));
    } else {
        assert(s.step().steps(0) == s.step());
    }
}

} // verus!
