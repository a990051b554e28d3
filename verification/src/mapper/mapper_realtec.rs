//! The Realtec mapper: a boot ROM over the whole cartridge area until
//! the game switches its banks in.

use vstd::prelude::*;
use crate::bits::{flag_byte, flag_of};
use crate::mapper::mapper_common::{BaseMapper, MapperConfig, MapperType, MemoryMap, PageChange, CART_PAGES};
use crate::mapper::mapper_database::{config_for, get_mapper_config};
use crate::mapper::RomInfo;

verus! {

/// The register that switches the ROM in.
pub const REG_ENABLE: u32 = 0x40_0000;

/// The register that sets which bank bits are fixed.
pub const REG_BANK_SIZE: u32 = 0x40_2000;

/// The register that sets the fixed bank bits.
pub const REG_BANK_SELECT: u32 = 0x40_4000;

pub struct RealtecMapper {
    pub base: BaseMapper,
    pub boot_rom_mapped: bool,
    pub rom_access_enabled: bool,
    /// Mask of the bank bits that are fixed.
    pub fixed_bank_size: u8,
    /// The fixed bank bits.
    pub fixed_bank_selection: u8,
}

impl RealtecMapper {
    /// The bank that page `p` shows once the ROM is switched in: the
    /// low three bits of the page, with the fixed bits replaced.
    pub open spec fn bank_of(&self, p: int) -> u8 {
        (((p % 8) as u8) & !self.fixed_bank_size) | (self.fixed_bank_selection & self.fixed_bank_size)
    }

    /// What the mapper wants of page `p` with the ROM switched in.
    pub open spec fn banked_target(&self, p: int) -> PageChange {
        PageChange::Rom((self.bank_of(p) * 0x1_0000) as u32)
    }

    /// What the mapper wants of page `p`: the start of the ROM while the
    /// boot ROM shows, the page's bank once the ROM is switched in.
    pub open spec fn target(&self, p: int) -> PageChange {
        if self.boot_rom_mapped {
            PageChange::Rom(0)
        } else if self.rom_access_enabled {
            self.banked_target(p)
        } else {
            PageChange::Keep
        }
    }

    /// The snapshot of the mapper.
    pub open spec fn snapshot(&self) -> Seq<u8> {
        seq![
            flag_of(self.boot_rom_mapped),
            flag_of(self.rom_access_enabled),
            self.fixed_bank_size,
            self.fixed_bank_selection,
        ] + self.base.regs@
    }

    pub fn new() -> (r: Self)
        ensures
            r.boot_rom_mapped,
            !r.rom_access_enabled,
            r.fixed_bank_size == 0,
            r.fixed_bank_selection == 0,
            r.base.rom_data@.len() == 0,
    {
        RealtecMapper {
            base: BaseMapper::new(),
            boot_rom_mapped: true,
            rom_access_enabled: false,
            fixed_bank_size: 0,
            fixed_bank_selection: 0,
        }
    }

    fn targets(&self, banked: bool) -> (r: [PageChange; 64])
        ensures
            forall|p: int|
                0 <= p < CART_PAGES ==> r[p] == (if banked {
                    self.banked_target(p)
                } else {
                    self.target(p)
                }),
    {
        let mut changes: [PageChange; 64] = [PageChange::Keep; 64];
        let mut i: usize = 0;
        while i < CART_PAGES
            invariant
                i <= CART_PAGES,
                forall|p: int|
                    0 <= p < i ==> changes[p] == (if banked {
                        self.banked_target(p)
                    } else {
                        self.target(p)
                    }),
            decreases CART_PAGES - i,
        {
            let bank: u8 = (((i % 8) as u8) & !self.fixed_bank_size) | (self.fixed_bank_selection
                & self.fixed_bank_size);
            changes[i] = if banked {
                PageChange::Rom((bank as u32) * 0x1_0000)
            } else if self.boot_rom_mapped {
                PageChange::Rom(0)
            } else if self.rom_access_enabled {
                PageChange::Rom((bank as u32) * 0x1_0000)
            } else {
                PageChange::Keep
            };
            i = i + 1;
        }
        changes
    }

    /// Takes the ROM and shows the boot ROM everywhere.
    pub fn init(&mut self, rom_info: &RomInfo, rom_data: &[u8], memory_map: &mut MemoryMap)
        ensures
            final(self).base.rom_data@ == rom_data@,
            final(self).base.config == config_for(MapperType::Realtec),
            final(self).boot_rom_mapped,
            final(self).rom_access_enabled == old(self).rom_access_enabled,
            final(self).fixed_bank_size == old(self).fixed_bank_size,
            final(self).fixed_bank_selection == old(self).fixed_bank_selection,
            final(memory_map).pages@ == final(self).base.remapped(
                |p: int| PageChange::Rom(0),
                old(memory_map).pages@,
                CART_PAGES as int,
            ),
    {
        self.base.setup_rom_mirroring(rom_data);
        self.base.config = get_mapper_config(MapperType::Realtec, rom_info);
        self.boot_rom_mapped = true;
        let changes = self.targets(false);
        self.base.apply_all(memory_map, &changes);
        assert(memory_map.pages@ =~= self.base.remapped(
            |p: int| PageChange::Rom(0),
            old(memory_map).pages@,
            CART_PAGES as int,
        ));
    }

    /// `after` is the mapper after a reset: a soft one changes nothing.
    pub open spec fn resets_to(self, hard_reset: bool, after: Self) -> bool {
        &&& !hard_reset ==> after == self
        &&& hard_reset ==> after.boot_rom_mapped && !after.rom_access_enabled && after.fixed_bank_size == 0 && after.fixed_bank_selection == 0 && after.base.regs@ == seq![0u8, 0u8, 0u8, 0u8] && after.base.rom_data == self.base.rom_data && after.base.rom_mask == self.base.rom_mask && after.base.config == self.base.config
    }

    pub fn reset(&mut self, hard_reset: bool)
        ensures
            old(self).resets_to(hard_reset, *final(self)),
    {
        if hard_reset {
            self.boot_rom_mapped = true;
            self.rom_access_enabled = false;
            self.fixed_bank_size = 0;
            self.fixed_bank_selection = 0;
            self.base.regs = [0; 4];
            assert(self.base.regs@ =~= seq![0u8, 0u8, 0u8, 0u8]);
        }
    }

    pub fn mapper_type(&self) -> (r: MapperType)
        ensures
            r == MapperType::Realtec,
    {
        MapperType::Realtec
    }

    pub fn config(&self) -> (r: &MapperConfig)
        ensures
            *r == self.base.config,
    {
        &self.base.config
    }

    /// `after` and `after_map` are the mapper and the page map after a
    /// write to the time window.
    pub open spec fn time_write_to(self, address: u32, data: u32, before_map: MemoryMap, after: Self, after_map: MemoryMap) -> bool {
        &&& after == self
        &&& after_map == before_map
    }

    pub fn handle_time_write(&mut self, address: u32, data: u32, memory_map: &mut MemoryMap)
        ensures
            old(self).time_write_to(address, data, *old(memory_map), *final(self), *final(memory_map)),
    {
    }

    pub fn handle_time_read(&self, address: u32) -> (r: u32)
        ensures
            r == 0xFFFF,
    {
        0xFFFF
    }

    /// `after` and `after_map` are the mapper and the page map after a
    /// write to the register window.
    pub open spec fn register_write_to(self, address: u32, data: u32, before_map: MemoryMap, after: Self, after_map: MemoryMap) -> bool {
        &&& after.base == self.base
        &&& address == REG_ENABLE && data % 2 == 1 && !self.rom_access_enabled ==> after.rom_access_enabled && !after.boot_rom_mapped && after.fixed_bank_size == self.fixed_bank_size && after.fixed_bank_selection == self.fixed_bank_selection && after_map.pages@ == self.base.remapped( |p: int| self.banked_target(p), before_map.pages@, CART_PAGES as int, )
        &&& !(address == REG_ENABLE && data % 2 == 1 && !self.rom_access_enabled) ==> after_map == before_map && after.rom_access_enabled == self.rom_access_enabled && after.boot_rom_mapped == self.boot_rom_mapped && after.fixed_bank_size == (if address == REG_BANK_SIZE { (data % 4) as u8 } else { self.fixed_bank_size }) && after.fixed_bank_selection == (if address == REG_BANK_SELECT { (data % 4) as u8 } else { self.fixed_bank_selection })
    }

    /// A write to a register: the first, with bit 0 set, switches the
    /// ROM in once; the other two set the fixed bank bits.
    pub fn handle_register_write(&mut self, address: u32, data: u32, memory_map: &mut MemoryMap)
        ensures
            old(self).register_write_to(address, data, *old(memory_map), *final(self), *final(memory_map)),
    {
        if address == REG_ENABLE {
            if data % 2 == 1 && !self.rom_access_enabled {
                let changes = self.targets(true);
                self.base.apply_all(memory_map, &changes);
                assert(memory_map.pages@ =~= old(self).base.remapped(
                    |p: int| old(self).banked_target(p),
                    old(memory_map).pages@,
                    CART_PAGES as int,
                ));
                self.rom_access_enabled = true;
                self.boot_rom_mapped = false;
            }
        } else if address == REG_BANK_SIZE {
            self.fixed_bank_size = (data % 4) as u8;
        } else if address == REG_BANK_SELECT {
            self.fixed_bank_selection = (data % 4) as u8;
        }
    }

    pub fn handle_register_read(&self, address: u32) -> (r: u32)
        ensures
            r == 0xFF,
    {
        0xFF
    }

    pub fn save_state(&self) -> (state: Vec<u8>)
        ensures
            state@ == self.snapshot(),
    {
        let mut state: Vec<u8> = Vec::new();
        state.push(flag_byte(self.boot_rom_mapped));
        state.push(flag_byte(self.rom_access_enabled));
        state.push(self.fixed_bank_size);
        state.push(self.fixed_bank_selection);
        state.push(self.base.regs[0]);
        state.push(self.base.regs[1]);
        state.push(self.base.regs[2]);
        state.push(self.base.regs[3]);
        assert(state@ =~= self.snapshot());
        state
    }

    /// `after` is the mapper after a snapshot was loaded, and `ok` whether
    /// it was taken: one that is too short is refused and changes nothing.
    pub open spec fn loads_to(self, data: Seq<u8>, ok: bool, after: Self) -> bool {
        &&& ok == (data.len() >= 8)
        &&& !ok ==> after == self
        &&& ok ==> after.boot_rom_mapped == (data[0] != 0) && after.rom_access_enabled == (data[1] != 0) && after.fixed_bank_size == data[2] && after.fixed_bank_selection == data[3] && after.base.regs@ == data.subrange(4, 8) && after.base.rom_data == self.base.rom_data && after.base.rom_mask == self.base.rom_mask && after.base.config == self.base.config && after.base.current_bank == self.base.current_bank
    }

    /// Loads a snapshot; one shorter than eight bytes is refused.
    pub fn load_state(&mut self, data: &[u8]) -> (ok: bool)
        ensures
            old(self).loads_to(data@, ok, *final(self)),
    {
        if data.len() < 8 {
            return false;
        }
        self.boot_rom_mapped = data[0] != 0;
        self.rom_access_enabled = data[1] != 0;
        self.fixed_bank_size = data[2];
        self.fixed_bank_selection = data[3];
        self.base.regs = [data[4], data[5], data[6], data[7]];
        assert(self.base.regs@ =~= data@.subrange(4, 8));
        true
    }

    pub fn update_mapping(&self, memory_map: &mut MemoryMap)
        ensures
            final(memory_map).pages@ == self.base.remapped(
                |p: int| self.target(p),
                old(memory_map).pages@,
                CART_PAGES as int,
            ),
    {
        let changes = self.targets(false);
        self.base.apply_all(memory_map, &changes);
        assert(memory_map.pages@ =~= self.base.remapped(
            |p: int| self.target(p),
            old(memory_map).pages@,
            CART_PAGES as int,
        ));
    }
}

} // verus!
