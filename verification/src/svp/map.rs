//! The chip-local address map.

use vstd::prelude::*;
use crate::bits::lemma_mask_u32;

verus! {

/// Words of working memory.
pub const DRAM_WORDS: usize = 8192;

/// Bytes of texture memory.
pub const TEXRAM_BYTES: usize = 131072;

/// Host-visible registers.
pub const REG_COUNT: usize = 16;

/// First chip address of the texture-memory window.
pub const TEXRAM_BASE: u32 = 0x00_4000;

/// Last chip address of the texture-memory window.
pub const TEXRAM_LAST: u32 = 0x02_3FFF;

/// What a 24-bit chip address selects.
#[derive(Clone, Copy, Debug, PartialEq, Eq, Structural)]
pub enum Region {
    /// Working memory; the payload is the word index.
    Dram(usize),
    /// Texture memory; the payload is the number of the byte: the low
    /// seventeen bits of the address.
    TexRam(usize),
    /// Register file; the payload is the register number.
    Register(usize),
    /// Cartridge ROM, read through the host bus.
    Rom,
    /// Nothing is mapped here.
    Unmapped,
}

/// The 24 address lines that reach the chip.
pub open spec fn chip_addr(addr: u32) -> u32 {
    addr & 0x00FF_FFFF
}

pub open spec fn in_dram_window(a: u32) -> bool {
    a <= 0x00_3FFF
}

pub open spec fn in_texram_window(a: u32) -> bool {
    TEXRAM_BASE <= a <= TEXRAM_LAST
}

pub open spec fn in_register_window(a: u32) -> bool {
    0x03_0000 <= a <= 0x03_001F
}

pub open spec fn in_rom_window(a: u32) -> bool {
    0x04_0000 <= a <= 0x3F_FFFF
}

/// True of the chip addresses that lie in one of the four windows.
pub open spec fn is_mapped(a: u32) -> bool {
    in_dram_window(a) || in_texram_window(a) || in_register_window(a) || in_rom_window(a)
}

/// The region of a chip address, with the index inside it.
pub open spec fn region_of(a: u32) -> Region {
    if in_dram_window(a) {
        Region::Dram((a / 2) as usize)
    } else if in_texram_window(a) {
        Region::TexRam((a % 0x2_0000) as usize)
    } else if in_register_window(a) {
        Region::Register(((a - 0x03_0000) / 2) as usize)
    } else if in_rom_window(a) {
        Region::Rom
    } else {
        Region::Unmapped
    }
}

/// Cuts a host address to the chip's 24 lines.
pub fn mask_address(addr: u32) -> (a: u32)
    ensures
        a == chip_addr(addr),
        a <= 0x00FF_FFFF,
{
    proof {
        lemma_mask_u32(addr, 0x00FF_FFFF);
    }
    addr & 0x00FF_FFFF
}

/// Decodes a chip address into its region and the index inside it.
pub fn decode(a: u32) -> (r: Region)
    ensures
        r == region_of(a),
        r matches Region::Dram(i) ==> i < DRAM_WORDS,
        r matches Region::TexRam(i) ==> i < TEXRAM_BYTES,
        r matches Region::Register(i) ==> i < REG_COUNT,
        r is Unmapped <==> !is_mapped(a),
{
    if a <= 0x00_3FFF {
        Region::Dram((a / 2) as usize)
    } else if a <= TEXRAM_LAST {
        Region::TexRam((a % 0x2_0000) as usize)
    } else if 0x03_0000 <= a && a <= 0x03_001F {
        Region::Register(((a - 0x03_0000) / 2) as usize)
    } else if 0x04_0000 <= a && a <= 0x3F_FFFF {
        Region::Rom
    } else {
        Region::Unmapped
    }
}

} // verus!
