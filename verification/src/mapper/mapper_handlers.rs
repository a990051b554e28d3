//! The cartridge's side of the bus: setting the page map up, and the
//! time and register windows that mappers listen on.

use vstd::prelude::*;
use crate::eeprom::BackupRam;
use crate::mapper::mapper_common::{mirror_mask, rom_mirror_mask, MemoryMap, PageEntry};
use crate::mapper::{map_standard, standard_pages, Mapper};

verus! {

/// First address of the time window that the bank registers of the
/// multi-game boards do not take.
pub const MULTI_BANK_END: u32 = 0xA1_3060;

/// Last address of the Sega mapper's bank registers.
pub const SEGA_BANK_LAST: u32 = 0xA1_30F1;

/// What a read of the time window gives without a mapper.
pub const OPEN_TIME: u32 = 0xFFFF;

/// What a read of the register window gives without a mapper.
pub const OPEN_REGISTER: u32 = 0xFF;

/// Plain save memory is mapped: it is in use, no serial memory drives
/// it, and it starts behind the ROM.
pub open spec fn maps_sram(sram: BackupRam, rom_len: int) -> bool {
    sram.on && sram.custom == 0 && sram.start >= rom_len
}

/// The page map with the save memory's page mapped, where it is and
/// the page exists.
pub open spec fn with_sram(pages: Seq<PageEntry>, sram: BackupRam, rom_len: int) -> Seq<PageEntry> {
    if maps_sram(sram, rom_len) && sram.start as int / 0x1_0000 < pages.len() {
        pages.update(sram.start as int / 0x1_0000, PageEntry::Sram)
    } else {
        pages
    }
}

/// Sets the page map up: the mapper's pages, or without a mapper the
/// ROM mirrored over the cartridge area; then the save memory.
pub fn setup_memory_map(mapper: Option<&Mapper>, memory_map: &mut MemoryMap, sram: &BackupRam, rom_data: &[u8])
    ensures
        final(memory_map).pages@ == with_sram(
            match mapper {
                Some(m) => m.mapped(old(memory_map).pages@),
                None => standard_pages(
                    old(memory_map).pages@,
                    rom_data@.len() as int,
                    mirror_mask(rom_data@.len() as int),
                ),
            },
            *sram,
            rom_data@.len() as int,
        ),
{
    match mapper {
        Some(m) => m.update_mapping(memory_map),
        None => {
            map_standard(rom_data.len(), rom_mirror_mask(rom_data.len()), memory_map);
        },
    }
    if sram.on && sram.custom == 0 {
        if (sram.start as u64) >= (rom_data.len() as u64) {
            memory_map.map_sram(sram.start / 0x1_0000);
        }
    }
}

/// An access to the time window: a read gives the mapper's value, or
/// the open bus without one; a write gives nothing back.
pub fn handle_time_signal(
    mapper: Option<&mut Mapper>,
    address: u32,
    data: u32,
    is_write: bool,
    memory_map: &mut MemoryMap,
) -> (r: Option<u32>)
    ensures
        is_write ==> r is None,
        !is_write ==> *final(memory_map) == *old(memory_map) && r == Some(
            match mapper {
                Some(m) => m.time_value(address),
                None => OPEN_TIME,
            },
        ),
        mapper matches Some(m) ==> (if is_write {
            m.time_write_to(address, data, *old(memory_map), *final(m), *final(memory_map))
        } else {
            *final(m) == *m
        }),
        mapper is None ==> *final(memory_map) == *old(memory_map),
{
    match mapper {
        Some(m) => {
            if is_write {
                m.handle_time_write(address, data, memory_map);
                None
            } else {
                Some(m.handle_time_read(address))
            }
        },
        None => {
            if is_write {
                default_time_write(address, data, memory_map);
                None
            } else {
                Some(default_time_read(address))
            }
        },
    }
}

/// An access to the register window: a read gives the mapper's value,
/// or the open bus without one; a write gives nothing back and, as the
/// page map is not at hand here, changes nothing.
pub fn handle_registers(mapper: Option<&mut Mapper>, address: u32, data: u32, is_write: bool) -> (r: Option<u32>)
    ensures
        is_write ==> r is None,
        !is_write ==> r == Some(
            match mapper {
                Some(m) => m.register_value(address),
                None => OPEN_REGISTER,
            },
        ),
        mapper matches Some(m) ==> *final(m) == *m,
{
    match mapper {
        Some(m) => {
            if is_write {
                None
            } else {
                Some(m.handle_register_read(address))
            }
        },
        None => {
            if is_write {
                default_register_write(address, data);
                None
            } else {
                Some(default_register_read(address))
            }
        },
    }
}

fn default_time_write(address: u32, data: u32, memory_map: &mut MemoryMap)
    ensures
        *final(memory_map) == *old(memory_map),
{
    if address < MULTI_BANK_END {
        mapper_64k_multi_w(address, memory_map);
        return;
    }
    if address > SEGA_BANK_LAST {
        mapper_512k_w(address, data, memory_map);
    } else {
        mapper_sega_w(data, memory_map);
    }
}

fn default_time_read(address: u32) -> (r: u32)
    ensures
        r == OPEN_TIME,
{
    OPEN_TIME
}

fn default_register_write(address: u32, data: u32) {
}

fn default_register_read(address: u32) -> (r: u32)
    ensures
        r == OPEN_REGISTER,
{
    OPEN_REGISTER
}

/// Bank registers of boards that this library has no ROM for: a
/// cartridge without a mapper has none of them.
fn mapper_64k_multi_w(address: u32, memory_map: &mut MemoryMap)
    ensures
        *final(memory_map) == *old(memory_map),
{
}

fn mapper_512k_w(address: u32, data: u32, memory_map: &mut MemoryMap)
    ensures
        *final(memory_map) == *old(memory_map),
{
}

fn mapper_sega_w(data: u32, memory_map: &mut MemoryMap)
    ensures
        *final(memory_map) == *old(memory_map),
{
}

} // verus!
