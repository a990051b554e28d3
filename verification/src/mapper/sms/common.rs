//! Paging shared by the Master System mappers: a write to a paging
//! register maps a run of 1 KiB pages of the Z80's address space.

use vstd::prelude::*;
use crate::mapper::sms::{MemoryMap, MemorySlot, MAPPER_MULTI_32K_16K, MAPPER_SEGA, MAPPER_SEGA_X, Z80_PAGES};

verus! {

/// The ROM page that a value written to a paging register selects: the
/// value wraps at the number of pages. A slot without pages has page 0
/// only.
pub open spec fn selected_page(data: u8, pages: u16) -> int {
    if pages == 0 {
        0
    } else {
        data as int % pages as int
    }
}

/// The first Z80 page that an 8 KiB paging register maps: registers 0
/// and 1 map 0x8000 and 0xA000, registers 2 and 3 map 0x4000 and 0x6000.
pub open spec fn first_page_8k(register: int) -> int {
    if register == 0 {
        0x20
    } else if register == 1 {
        0x28
    } else if register == 2 {
        0x10
    } else {
        0x18
    }
}

/// The page that a 16 KiB register of the Sega mapper selects: with the
/// low two bits of the control register set, the page moves up by eight
/// pages for each step below four.
pub open spec fn selected_page_16k(slot: MemorySlot, data: u8) -> int {
    let page = selected_page(data, slot.pages);
    if slot.mapper == MAPPER_SEGA && slot.fcr[0] % 4 != 0 && slot.pages != 0 {
        (page + (4 - slot.fcr[0] % 4) * 8) % (slot.pages as int)
    } else {
        page
    }
}

/// The read map after the 1 KiB pages `[first, first + count)` were
/// mapped to the ROM from `base` on, the page index taken modulo
/// `wrap`.
pub open spec fn mapped_run(before: Seq<usize>, first: int, count: int, base: int, wrap: int) -> Seq<usize> {
    Seq::new(
        before.len(),
        |i: int|
            if first <= i < first + count {
                (base + (i % wrap) * 0x400) as usize
            } else {
                before[i]
            },
    )
}

/// Maps a run of 1 KiB pages.
pub fn map_run(memory: &mut MemoryMap, first: usize, count: usize, base: usize, wrap: usize)
    requires
        first + count <= Z80_PAGES,
        base <= 0x4000_0000,
        0 < wrap <= Z80_PAGES,
    ensures
        final(memory).read_map@ == mapped_run(old(memory).read_map@, first as int, count as int, base as int, wrap as int),
{
    let mut i: usize = first;
    while i < first + count
        invariant
            first <= i <= first + count,
            first + count <= Z80_PAGES,
            base <= 0x4000_0000,
            0 < wrap <= Z80_PAGES,
            forall|j: int| first <= j < i ==> memory.read_map[j] == (base + (j % (wrap as int)) * 0x400) as usize,
            forall|j: int| 0 <= j < first || i <= j < Z80_PAGES ==> memory.read_map[j] == old(memory).read_map[j],
        decreases first + count - i,
    {
        memory.read_map[i] = base + (i % wrap) * 0x400;
        i = i + 1;
    }
    assert(memory.read_map@ =~= mapped_run(old(memory).read_map@, first as int, count as int, base as int, wrap as int));
}

fn select_page(data: u8, pages: u16) -> (r: usize)
    ensures
        r == selected_page(data, pages),
        r <= 255,
{
    if pages == 0 {
        0
    } else {
        let r: usize = (data as usize) % (pages as usize);
        assert(r <= data) by (nonlinear_arith)
            requires
                r == (data as usize) % (pages as usize),
                pages > 0,
        ;
        r
    }
}

/// A write to an 8 KiB paging register: the register keeps the value
/// and eight pages read from the selected 8 KiB of ROM.
pub fn mapper_8k_write(slot: &mut MemorySlot, offset: usize, data: u8, memory: &mut MemoryMap)
    ensures
        final(slot).fcr@ == old(slot).fcr@.update((offset % 4) as int, data),
        final(slot).mapper == old(slot).mapper,
        final(slot).pages == old(slot).pages,
        final(memory).read_map@ == mapped_run(
            old(memory).read_map@,
            first_page_8k((offset % 4) as int),
            8,
            selected_page(data, old(slot).pages) * 0x2000,
            8,
        ),
{
    let page: usize = select_page(data, slot.pages) * 0x2000;
    let register: usize = offset % 4;
    slot.fcr[register] = data;
    let first: usize = if register == 0 {
        0x20
    } else if register == 1 {
        0x28
    } else if register == 2 {
        0x10
    } else {
        0x18
    };
    map_run(memory, first, 8, page, 8);
}

/// A write to a 16 KiB paging register. Register 0 is the control
/// register and maps nothing; register 1 maps 0x0400 to 0x3FFF (the
/// first 1 KiB stays), register 2 maps 0x4000, register 3 maps 0x8000
/// unless a Sega mapper has its RAM there. Registers past the fourth
/// do not exist.
pub fn mapper_16k_write(slot: &mut MemorySlot, offset: usize, data: u8, memory: &mut MemoryMap)
    ensures
        offset >= 4 ==> *final(slot) == *old(slot) && *final(memory) == *old(memory),
        offset < 4 ==> final(slot).fcr@ == old(slot).fcr@.update(offset as int, data) && final(slot).mapper == old(slot).mapper && final(slot).pages == old(slot).pages,
        offset == 0 ==> *final(memory) == *old(memory),
        offset == 1 ==> final(memory).read_map@ == mapped_run(
            old(memory).read_map@,
            1,
            15,
            selected_page_16k(*old(slot), data) * 0x4000,
            16,
        ),
        offset == 2 ==> final(memory).read_map@ == mapped_run(
            old(memory).read_map@,
            0x10,
            16,
            selected_page_16k(*old(slot), data) * 0x4000,
            16,
        ),
        offset == 3 && ram_at_8000(*old(slot)) ==> *final(memory) == *old(memory),
        offset == 3 && !ram_at_8000(*old(slot)) ==> final(memory).read_map@ == mapped_run(
            old(memory).read_map@,
            0x20,
            16,
            selected_page_16k(*old(slot), data) * 0x4000,
            16,
        ),
{
    if offset >= 4 {
        return;
    }
    let mut page: usize = select_page(data, slot.pages);
    if slot.mapper == MAPPER_SEGA && slot.fcr[0] % 4 != 0 && slot.pages != 0 {
        page = (page + ((4 - (slot.fcr[0] % 4)) as usize) * 8) % (slot.pages as usize);
    }
    let ram_mapped = (slot.mapper == MAPPER_SEGA || slot.mapper == MAPPER_SEGA_X) && (slot.fcr[0] / 8) % 2 == 1;
    slot.fcr[offset] = data;
    if offset == 1 {
        map_run(memory, 1, 15, page * 0x4000, 16);
    } else if offset == 2 {
        map_run(memory, 0x10, 16, page * 0x4000, 16);
    } else if offset == 3 {
        if !ram_mapped {
            map_run(memory, 0x20, 16, page * 0x4000, 16);
        }
    }
}

/// A Sega mapper has its RAM at 0x8000: bit 3 of the control register.
pub open spec fn ram_at_8000(slot: MemorySlot) -> bool {
    (slot.mapper == MAPPER_SEGA || slot.mapper == MAPPER_SEGA_X) && (slot.fcr[0] / 8) % 2 == 1
}

/// A write to the 32 KiB paging register: the first 32 KiB read from
/// the selected 32 KiB of ROM, and the 16 KiB above mirror the first.
/// The mapper that pages 16 KiB on top maps nothing here.
pub fn mapper_32k_write(slot: &mut MemorySlot, data: u8, memory: &mut MemoryMap)
    ensures
        final(slot).fcr@ == old(slot).fcr@.update(0, data),
        final(slot).mapper == old(slot).mapper,
        final(slot).pages == old(slot).pages,
        old(slot).mapper == MAPPER_MULTI_32K_16K ==> *final(memory) == *old(memory),
        old(slot).mapper != MAPPER_MULTI_32K_16K ==> final(memory).read_map@ == mapped_run(
            mapped_run(old(memory).read_map@, 0, 0x20, selected_page(data, old(slot).pages) * 0x8000, 64),
            0x20,
            16,
            selected_page(data, old(slot).pages) * 0x8000,
            16,
        ),
{
    let page: usize = select_page(data, slot.pages) * 0x8000;
    slot.fcr[0] = data;
    if slot.mapper != MAPPER_MULTI_32K_16K {
        map_run(memory, 0, 0x20, page, 64);
        map_run(memory, 0x20, 16, page, 16);
    }
}

/// The byte of a banked ROM: bank `bank`, wrapped at the number of
/// pages, of banks of `size` bytes, at `offset` in the bank. A ROM
/// without pages, and an address past the ROM, read as 0xFF.
pub open spec fn banked_byte(rom: Seq<u8>, pages: u16, bank: int, size: int, offset: int) -> u8 {
    if pages == 0 {
        0xFF
    } else if (bank % (pages as int)) * size + offset < rom.len() {
        rom[(bank % (pages as int)) * size + offset]
    } else {
        0xFF
    }
}

/// Reads a byte of a banked ROM.
pub fn read_banked(rom: &Vec<u8>, pages: u16, bank: u8, size: usize, offset: usize) -> (r: u8)
    requires
        size <= 0x8000,
        offset < size,
    ensures
        r == banked_byte(rom@, pages, bank as int, size as int, offset as int),
{
    if pages == 0 {
        return 0xFF;
    }
    let page: usize = (bank as usize) % (pages as usize);
    assert(page <= bank) by (nonlinear_arith)
        requires
            page == (bank as usize) % (pages as usize),
            pages > 0,
    ;
    assert(page * size <= 255 * 0x8000) by (nonlinear_arith)
        requires
            page <= 255,
            size <= 0x8000,
    ;
    let addr: usize = page * size + offset;
    if addr < rom.len() {
        rom[addr]
    } else {
        0xFF
    }
}

} // verus!
