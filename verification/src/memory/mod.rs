//! The console's memory system: the 24-bit bus, the cartridge, the page
//! map and battery-backed save memory.

use vstd::prelude::*;

pub mod bus;
pub mod cart;
pub mod map;
pub mod sram;

verus! {

/// The address lines of the console's bus: 24 bits, 16 MiB.
pub const ADDRESS_MASK: u32 = 0x00FF_FFFF;

/// Largest ROM image that a cartridge takes: 4 MiB and 1 MiB of backup
/// for the mappers.
pub const MAX_ROM_SIZE: usize = 5 * 1024 * 1024;

/// Largest save memory.
pub const MAX_SRAM_SIZE: usize = 64 * 1024;

#[derive(Clone, Copy, Debug, PartialEq, Eq, Structural)]
pub enum MemoryError {
    InvalidAddress,
    RomTooLarge,
    InvalidCartridge,
    SaveError,
}

pub type MemoryResult<T> = Result<T, MemoryError>;

} // verus!
