//! The Radica mapper of the plug-and-play consoles: the address of a
//! register access selects the bank.

use vstd::prelude::*;
use crate::bits::{flag_byte, flag_of};
use crate::mapper::mapper_common::{BaseMapper, MapperConfig, MapperType, MemoryMap, PageChange, CART_PAGES};
use crate::mapper::mapper_database::{config_for, get_mapper_config};
use crate::mapper::RomInfo;

verus! {

/// Checksum of the ROM of the one console with 128 KiB banks and save
/// memory.
pub const CHECKSUM_128K: u16 = 0x1F7F;

pub struct RadicaMapper {
    pub base: BaseMapper,
    /// Banks are 64 KiB; else 128 KiB.
    pub mapper_64k: bool,
    pub current_bank_index: u8,
    pub sram_enabled: bool,
}

impl RadicaMapper {
    /// The bank index that an address selects: bits 1 to 6, without the
    /// lowest where banks are 128 KiB.
    pub open spec fn index_of(&self, address: u32) -> u8 {
        if self.mapper_64k {
            ((address / 2) % 64) as u8
        } else {
            (((address / 2) % 64) / 2 * 2) as u8
        }
    }

    /// What the mapper wants of page `p`: the bank of the index with the
    /// page's bits on top; with 128 KiB banks and save memory, nothing
    /// in the upper half.
    pub open spec fn target(&self, p: int) -> PageChange {
        if !self.mapper_64k && self.sram_enabled && p >= 0x20 {
            PageChange::Unmap
        } else {
            PageChange::Rom(((self.current_bank_index | (p as u8)) * 0x1_0000) as u32)
        }
    }

    /// The snapshot of the mapper.
    pub open spec fn snapshot(&self) -> Seq<u8> {
        seq![flag_of(self.mapper_64k), self.current_bank_index, flag_of(self.sram_enabled)]
            + self.base.snapshot_tail()
    }

    pub fn new() -> (r: Self)
        ensures
            r.mapper_64k,
            r.current_bank_index == 0,
            !r.sram_enabled,
            r.base.rom_data@.len() == 0,
            r.base.current_bank == 0,
    {
        RadicaMapper { base: BaseMapper::new(), mapper_64k: true, current_bank_index: 0, sram_enabled: false }
    }

    fn targets(&self) -> (r: [PageChange; 64])
        ensures
            forall|p: int| 0 <= p < CART_PAGES ==> r[p] == self.target(p),
    {
        let mut changes: [PageChange; 64] = [PageChange::Keep; 64];
        let mut i: usize = 0;
        while i < CART_PAGES
            invariant
                i <= CART_PAGES,
                forall|p: int| 0 <= p < i ==> changes[p] == self.target(p),
            decreases CART_PAGES - i,
        {
            changes[i] = if !self.mapper_64k && self.sram_enabled && i >= 0x20 {
                PageChange::Unmap
            } else {
                PageChange::Rom(((self.current_bank_index | (i as u8)) as u32) * 0x1_0000)
            };
            i = i + 1;
        }
        changes
    }

    /// Takes the ROM; its checksum tells the bank size.
    pub fn init(&mut self, rom_info: &RomInfo, rom_data: &[u8], memory_map: &mut MemoryMap)
        ensures
            final(self).base.rom_data@ == rom_data@,
            final(self).base.config == config_for(MapperType::Radica),
            final(self).mapper_64k == (rom_info.real_checksum != CHECKSUM_128K),
            final(self).sram_enabled == (rom_info.real_checksum == CHECKSUM_128K),
            final(self).current_bank_index == old(self).current_bank_index,
            final(memory_map).pages@ == final(self).base.remapped(
                |p: int| final(self).target(p),
                old(memory_map).pages@,
                CART_PAGES as int,
            ),
    {
        self.base.setup_rom_mirroring(rom_data);
        self.base.config = get_mapper_config(MapperType::Radica, rom_info);
        if rom_info.real_checksum == CHECKSUM_128K {
            self.mapper_64k = false;
            self.sram_enabled = true;
        } else {
            self.mapper_64k = true;
            self.sram_enabled = false;
        }
        self.update_mapping(memory_map);
    }

    /// `after` is the mapper after a reset: a soft one changes nothing.
    pub open spec fn resets_to(self, hard_reset: bool, after: Self) -> bool {
        &&& !hard_reset ==> after == self
        &&& hard_reset ==> after == (RadicaMapper { current_bank_index: 0, base: BaseMapper { current_bank: 0, ..self.base }, ..self })
    }

    pub fn reset(&mut self, hard_reset: bool)
        ensures
            old(self).resets_to(hard_reset, *final(self)),
    {
        if hard_reset {
            self.current_bank_index = 0;
            self.base.current_bank = 0;
        }
    }

    pub fn mapper_type(&self) -> (r: MapperType)
        ensures
            r == MapperType::Radica,
    {
        MapperType::Radica
    }

    pub fn config(&self) -> (r: &MapperConfig)
        ensures
            *r == self.base.config,
    {
        &self.base.config
    }

    /// `after` and `after_map` are the mapper and the page map after a
    /// write to the time window.
    pub open spec fn time_write_to(self, address: u32, data: u32, before_map: MemoryMap, after: Self, after_map: MemoryMap) -> bool {
        &&& after == self
        &&& after_map == before_map
    }

    pub fn handle_time_write(&mut self, address: u32, data: u32, memory_map: &mut MemoryMap)
        ensures
            old(self).time_write_to(address, data, *old(memory_map), *final(self), *final(memory_map)),
    {
    }

    /// Reads the time window: the console's identification.
    pub fn handle_time_read(&self, address: u32) -> (r: u32)
        ensures
            r == 0x03,
    {
        0x03
    }

    /// `after` and `after_map` are the mapper and the page map after a
    /// write to the register window.
    pub open spec fn register_write_to(self, address: u32, data: u32, before_map: MemoryMap, after: Self, after_map: MemoryMap) -> bool {
        &&& after == (RadicaMapper { current_bank_index: self.index_of(address), ..self })
        &&& after_map.pages@ == after.base.remapped( |p: int| after.target(p), before_map.pages@, CART_PAGES as int, )
    }

    /// An access to the register window: the address selects the bank.
    pub fn handle_register_write(&mut self, address: u32, data: u32, memory_map: &mut MemoryMap)
        ensures
            old(self).register_write_to(address, data, *old(memory_map), *final(self), *final(memory_map)),
    {
        let index: u32 = if self.mapper_64k {
            (address / 2) % 64
        } else {
            ((address / 2) % 64) / 2 * 2
        };
        self.current_bank_index = index as u8;
        self.update_mapping(memory_map);
    }

    pub fn handle_register_read(&self, address: u32) -> (r: u32)
        ensures
            r == 0xFF,
    {
        0xFF
    }

    pub fn save_state(&self) -> (state: Vec<u8>)
        ensures
            state@ == self.snapshot(),
    {
        let mut state: Vec<u8> = Vec::new();
        state.push(flag_byte(self.mapper_64k));
        state.push(self.current_bank_index);
        state.push(flag_byte(self.sram_enabled));
        assert(state@ =~= seq![flag_of(self.mapper_64k), self.current_bank_index, flag_of(self.sram_enabled)]);
        self.base.save_tail(&mut state);
        state
    }

    /// `after` is the mapper after a snapshot was loaded, and `ok` whether
    /// it was taken: one that is too short is refused and changes nothing.
    pub open spec fn loads_to(self, data: Seq<u8>, ok: bool, after: Self) -> bool {
        &&& ok == (data.len() >= 8)
        &&& !ok ==> after == self
        &&& ok ==> after.mapper_64k == (data[0] != 0) && after.current_bank_index == data[1] && after.sram_enabled == (data[2] != 0) && after.base.current_bank == data[3] && after.base.regs@ == data.subrange(4, 8) && after.base.rom_data == self.base.rom_data && after.base.rom_mask == self.base.rom_mask && after.base.config == self.base.config
    }

    /// Loads a snapshot; one shorter than eight bytes is refused.
    pub fn load_state(&mut self, data: &[u8]) -> (ok: bool)
        ensures
            old(self).loads_to(data@, ok, *final(self)),
    {
        if data.len() < 8 {
            return false;
        }
        self.mapper_64k = data[0] != 0;
        self.current_bank_index = data[1];
        self.sram_enabled = data[2] != 0;
        self.base.load_tail(data, 3);
        true
    }

    pub fn update_mapping(&self, memory_map: &mut MemoryMap)
        ensures
            final(memory_map).pages@ == self.base.remapped(
                |p: int| self.target(p),
                old(memory_map).pages@,
                CART_PAGES as int,
            ),
    {
        let changes = self.targets();
        self.base.apply_all(memory_map, &changes);
        assert(memory_map.pages@ =~= self.base.remapped(
            |p: int| self.target(p),
            old(memory_map).pages@,
            CART_PAGES as int,
        ));
    }
}

} // verus!
