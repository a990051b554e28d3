//! The mappers of the Super Fighter boards: SF-001, SF-002, SF-004 and
//! T-5740.

use vstd::prelude::*;
use crate::bits::{flag_byte, flag_of};
use crate::mapper::mapper_common::{BaseMapper, MapperConfig, MapperType, MemoryMap, PageChange, CART_PAGES};
use crate::mapper::mapper_database::{config_for, get_mapper_config};
use crate::mapper::RomInfo;

verus! {

/// The register that an address selects on the SF boards: bits 8 to 11.
pub open spec fn sf_register(address: u32) -> u32 {
    (address / 256) % 16
}

/// Bit `n` of a value written to a register is set.
pub open spec fn data_bit(data: u32, n: int) -> bool {
    (data as int / crate::bits::pow2(n)) % 2 == 1
}

pub struct Sf001Mapper {
    pub base: BaseMapper,
    pub mode_register: u8,
    pub rom_enabled: bool,
    pub sram_enabled: bool,
    pub hardware_locked: bool,
}

impl Sf001Mapper {
    /// What the mapper wants of page `p`: nothing shows with the ROM
    /// off; with the save memory on, the first four pages show bank 15
    /// and the rest stay; else the ROM shows bank by bank.
    pub open spec fn target(&self, p: int) -> PageChange {
        if !self.rom_enabled {
            PageChange::Unmap
        } else if self.sram_enabled {
            if p < 4 {
                PageChange::Rom(((0x38 + p) * 0x1_0000) as u32)
            } else {
                PageChange::Keep
            }
        } else {
            PageChange::Rom((p * 0x1_0000) as u32)
        }
    }

    /// The mapper after a write to the mode register: bit 6 switches
    /// the ROM off, else bit 7 switches the save memory on; bit 5 locks
    /// the hardware.
    pub open spec fn moded(self, data: u32) -> Sf001Mapper {
        Sf001Mapper {
            mode_register: (data % 256) as u8,
            rom_enabled: !data_bit(data, 6),
            sram_enabled: if data_bit(data, 6) {
                self.sram_enabled
            } else {
                data_bit(data, 7)
            },
            hardware_locked: data_bit(data, 5),
            ..self
        }
    }

    /// The snapshot of the mapper.
    pub open spec fn snapshot(&self) -> Seq<u8> {
        seq![
            self.mode_register,
            flag_of(self.rom_enabled),
            flag_of(self.sram_enabled),
            flag_of(self.hardware_locked),
        ] + self.base.snapshot_tail()
    }

    pub fn new() -> (r: Self)
        ensures
            r.mode_register == 0,
            r.rom_enabled,
            !r.sram_enabled,
            !r.hardware_locked,
            r.base.rom_data@.len() == 0,
            r.base.current_bank == 0,
    {
        Sf001Mapper {
            base: BaseMapper::new(),
            mode_register: 0,
            rom_enabled: true,
            sram_enabled: false,
            hardware_locked: false,
        }
    }

    fn targets(&self) -> (r: [PageChange; 64])
        ensures
            forall|p: int| 0 <= p < CART_PAGES ==> r[p] == self.target(p),
    {
        let mut changes: [PageChange; 64] = [PageChange::Keep; 64];
        let mut i: usize = 0;
        while i < CART_PAGES
            invariant
                i <= CART_PAGES,
                forall|p: int| 0 <= p < i ==> changes[p] == self.target(p),
            decreases CART_PAGES - i,
        {
            changes[i] = if !self.rom_enabled {
                PageChange::Unmap
            } else if self.sram_enabled {
                if i < 4 {
                    PageChange::Rom((0x38 + i as u32) * 0x1_0000)
                } else {
                    PageChange::Keep
                }
            } else {
                PageChange::Rom((i as u32) * 0x1_0000)
            };
            i = i + 1;
        }
        changes
    }

    pub fn init(&mut self, rom_info: &RomInfo, rom_data: &[u8], memory_map: &mut MemoryMap)
        ensures
            final(self).base.rom_data@ == rom_data@,
            final(self).base.config == config_for(MapperType::Sf001),
            final(self).mode_register == old(self).mode_register,
            final(self).rom_enabled == old(self).rom_enabled,
            final(self).sram_enabled == old(self).sram_enabled,
            final(self).hardware_locked == old(self).hardware_locked,
            final(memory_map).pages@ == final(self).base.remapped(
                |p: int| final(self).target(p),
                old(memory_map).pages@,
                CART_PAGES as int,
            ),
    {
        self.base.setup_rom_mirroring(rom_data);
        self.base.config = get_mapper_config(MapperType::Sf001, rom_info);
        self.update_mapping(memory_map);
    }

    /// `after` is the mapper after a reset: a soft one changes nothing.
    pub open spec fn resets_to(self, hard_reset: bool, after: Self) -> bool {
        &&& !hard_reset ==> after == self
        &&& hard_reset ==> after == (Sf001Mapper { mode_register: 0, rom_enabled: true, sram_enabled: false, hardware_locked: false, base: BaseMapper { current_bank: 0, ..self.base }, })
    }

    pub fn reset(&mut self, hard_reset: bool)
        ensures
            old(self).resets_to(hard_reset, *final(self)),
    {
        if hard_reset {
            self.mode_register = 0;
            self.rom_enabled = true;
            self.sram_enabled = false;
            self.hardware_locked = false;
            self.base.current_bank = 0;
        }
    }

    pub fn mapper_type(&self) -> (r: MapperType)
        ensures
            r == MapperType::Sf001,
    {
        MapperType::Sf001
    }

    pub fn config(&self) -> (r: &MapperConfig)
        ensures
            *r == self.base.config,
    {
        &self.base.config
    }

    /// `after` and `after_map` are the mapper and the page map after a
    /// write to the time window.
    pub open spec fn time_write_to(self, address: u32, data: u32, before_map: MemoryMap, after: Self, after_map: MemoryMap) -> bool {
        &&& after == self
        &&& after_map == before_map
    }

    pub fn handle_time_write(&mut self, address: u32, data: u32, memory_map: &mut MemoryMap)
        ensures
            old(self).time_write_to(address, data, *old(memory_map), *final(self), *final(memory_map)),
    {
    }

    pub fn handle_time_read(&self, address: u32) -> (r: u32)
        ensures
            r == 0xFFFF,
    {
        0xFFFF
    }

    /// `after` and `after_map` are the mapper and the page map after a
    /// write to the register window.
    pub open spec fn register_write_to(self, address: u32, data: u32, before_map: MemoryMap, after: Self, after_map: MemoryMap) -> bool {
        &&& self.hardware_locked || sf_register(address) != 14 ==> after == self && after_map == before_map
        &&& !self.hardware_locked && sf_register(address) == 14 ==> after == self.moded(data) && after_map.pages@ == after.base.remapped( |p: int| after.target(p), before_map.pages@, CART_PAGES as int, )
    }

    /// A write to a register: register 14 is the mode register, unless
    /// the hardware is locked.
    pub fn handle_register_write(&mut self, address: u32, data: u32, memory_map: &mut MemoryMap)
        ensures
            old(self).register_write_to(address, data, *old(memory_map), *final(self), *final(memory_map)),
    {
        if self.hardware_locked {
            return;
        }
        if (address / 256) % 16 == 0xE {
            proof {
                crate::bits::lemma_pow2_values();
            }
            self.mode_register = (data % 256) as u8;
            if (data / 64) % 2 == 1 {
                self.rom_enabled = false;
            } else if (data / 128) % 2 == 1 {
                self.sram_enabled = true;
                self.rom_enabled = true;
            } else {
                self.rom_enabled = true;
                self.sram_enabled = false;
            }
            if (data / 32) % 2 == 1 {
                self.hardware_locked = true;
            }
            self.update_mapping(memory_map);
        }
    }

    pub fn handle_register_read(&self, address: u32) -> (r: u32)
        ensures
            r == 0xFF,
    {
        0xFF
    }

    pub fn save_state(&self) -> (state: Vec<u8>)
        ensures
            state@ == self.snapshot(),
    {
        let mut state: Vec<u8> = Vec::new();
        state.push(self.mode_register);
        state.push(flag_byte(self.rom_enabled));
        state.push(flag_byte(self.sram_enabled));
        state.push(flag_byte(self.hardware_locked));
        assert(state@ =~= seq![
            self.mode_register,
            flag_of(self.rom_enabled),
            flag_of(self.sram_enabled),
            flag_of(self.hardware_locked),
        ]);
        self.base.save_tail(&mut state);
        state
    }

    /// `after` is the mapper after a snapshot was loaded, and `ok` whether
    /// it was taken: one that is too short is refused and changes nothing.
    pub open spec fn loads_to(self, data: Seq<u8>, ok: bool, after: Self) -> bool {
        &&& ok == (data.len() >= 9)
        &&& !ok ==> after == self
        &&& ok ==> after.mode_register == data[0] && after.rom_enabled == (data[1] != 0) && after.sram_enabled == (data[2] != 0) && after.hardware_locked == (data[3] != 0) && after.base.current_bank == data[4] && after.base.regs@ == data.subrange(5, 9) && after.base.rom_data == self.base.rom_data && after.base.rom_mask == self.base.rom_mask && after.base.config == self.base.config
    }

    /// Loads a snapshot; one shorter than nine bytes is refused.
    pub fn load_state(&mut self, data: &[u8]) -> (ok: bool)
        ensures
            old(self).loads_to(data@, ok, *final(self)),
    {
        if data.len() < 9 {
            return false;
        }
        self.mode_register = data[0];
        self.rom_enabled = data[1] != 0;
        self.sram_enabled = data[2] != 0;
        self.hardware_locked = data[3] != 0;
        self.base.load_tail(data, 4);
        true
    }

    pub fn update_mapping(&self, memory_map: &mut MemoryMap)
        ensures
            final(memory_map).pages@ == self.base.remapped(
                |p: int| self.target(p),
                old(memory_map).pages@,
                CART_PAGES as int,
            ),
    {
        let changes = self.targets();
        self.base.apply_all(memory_map, &changes);
        assert(memory_map.pages@ =~= self.base.remapped(
            |p: int| self.target(p),
            old(memory_map).pages@,
            CART_PAGES as int,
        ));
    }
}

pub struct Sf002Mapper {
    pub base: BaseMapper,
    pub bank_remap_enabled: bool,
}

impl Sf002Mapper {
    /// What the mapper wants of page `p`: the ROM bank by bank, but with
    /// the remap on the pages 0x20 to 0x3B show the banks from 0 on; the
    /// last four pages stay.
    pub open spec fn target(&self, p: int) -> PageChange {
        if p < 0x20 {
            PageChange::Rom((p * 0x1_0000) as u32)
        } else if p < 0x3C {
            if self.bank_remap_enabled {
                PageChange::Rom(((p - 0x20) * 0x1_0000) as u32)
            } else {
                PageChange::Rom((p * 0x1_0000) as u32)
            }
        } else {
            PageChange::Keep
        }
    }

    /// The snapshot of the mapper.
    pub open spec fn snapshot(&self) -> Seq<u8> {
        seq![flag_of(self.bank_remap_enabled)] + self.base.snapshot_tail()
    }

    pub fn new() -> (r: Self)
        ensures
            !r.bank_remap_enabled,
            r.base.rom_data@.len() == 0,
            r.base.current_bank == 0,
    {
        Sf002Mapper { base: BaseMapper::new(), bank_remap_enabled: false }
    }

    fn targets(&self) -> (r: [PageChange; 64])
        ensures
            forall|p: int| 0 <= p < CART_PAGES ==> r[p] == self.target(p),
    {
        let mut changes: [PageChange; 64] = [PageChange::Keep; 64];
        let mut i: usize = 0;
        while i < CART_PAGES
            invariant
                i <= CART_PAGES,
                forall|p: int| 0 <= p < i ==> changes[p] == self.target(p),
            decreases CART_PAGES - i,
        {
            changes[i] = if i < 0x20 {
                PageChange::Rom((i as u32) * 0x1_0000)
            } else if i < 0x3C {
                if self.bank_remap_enabled {
                    PageChange::Rom((i as u32 - 0x20) * 0x1_0000)
                } else {
                    PageChange::Rom((i as u32) * 0x1_0000)
                }
            } else {
                PageChange::Keep
            };
            i = i + 1;
        }
        changes
    }

    pub fn init(&mut self, rom_info: &RomInfo, rom_data: &[u8], memory_map: &mut MemoryMap)
        ensures
            final(self).base.rom_data@ == rom_data@,
            final(self).base.config == config_for(MapperType::Sf002),
            final(self).bank_remap_enabled == old(self).bank_remap_enabled,
            final(memory_map).pages@ == final(self).base.remapped(
                |p: int| final(self).target(p),
                old(memory_map).pages@,
                CART_PAGES as int,
            ),
    {
        self.base.setup_rom_mirroring(rom_data);
        self.base.config = get_mapper_config(MapperType::Sf002, rom_info);
        self.update_mapping(memory_map);
    }

    /// `after` is the mapper after a reset: a soft one changes nothing.
    pub open spec fn resets_to(self, hard_reset: bool, after: Self) -> bool {
        &&& !hard_reset ==> after == self
        &&& hard_reset ==> after == (Sf002Mapper { bank_remap_enabled: false, base: BaseMapper { current_bank: 0, ..self.base }, })
    }

    pub fn reset(&mut self, hard_reset: bool)
        ensures
            old(self).resets_to(hard_reset, *final(self)),
    {
        if hard_reset {
            self.bank_remap_enabled = false;
            self.base.current_bank = 0;
        }
    }

    pub fn mapper_type(&self) -> (r: MapperType)
        ensures
            r == MapperType::Sf002,
    {
        MapperType::Sf002
    }

    pub fn config(&self) -> (r: &MapperConfig)
        ensures
            *r == self.base.config,
    {
        &self.base.config
    }

    /// `after` and `after_map` are the mapper and the page map after a
    /// write to the time window.
    pub open spec fn time_write_to(self, address: u32, data: u32, before_map: MemoryMap, after: Self, after_map: MemoryMap) -> bool {
        &&& after == self
        &&& after_map == before_map
    }

    pub fn handle_time_write(&mut self, address: u32, data: u32, memory_map: &mut MemoryMap)
        ensures
            old(self).time_write_to(address, data, *old(memory_map), *final(self), *final(memory_map)),
    {
    }

    pub fn handle_time_read(&self, address: u32) -> (r: u32)
        ensures
            r == 0xFFFF,
    {
        0xFFFF
    }

    /// `after` and `after_map` are the mapper and the page map after a
    /// write to the register window.
    pub open spec fn register_write_to(self, address: u32, data: u32, before_map: MemoryMap, after: Self, after_map: MemoryMap) -> bool {
        &&& after == (Sf002Mapper { bank_remap_enabled: data_bit(data, 7), ..self })
        &&& after_map.pages@ == after.base.remapped( |p: int| after.target(p), before_map.pages@, CART_PAGES as int, )
    }

    /// A write to the register: bit 7 switches the remap.
    pub fn handle_register_write(&mut self, address: u32, data: u32, memory_map: &mut MemoryMap)
        ensures
            old(self).register_write_to(address, data, *old(memory_map), *final(self), *final(memory_map)),
    {
        proof {
            crate::bits::lemma_pow2_values();
        }
        self.bank_remap_enabled = (data / 128) % 2 == 1;
        self.update_mapping(memory_map);
    }

    pub fn handle_register_read(&self, address: u32) -> (r: u32)
        ensures
            r == 0xFF,
    {
        0xFF
    }

    pub fn save_state(&self) -> (state: Vec<u8>)
        ensures
            state@ == self.snapshot(),
    {
        let mut state: Vec<u8> = Vec::new();
        state.push(flag_byte(self.bank_remap_enabled));
        assert(state@ =~= seq![flag_of(self.bank_remap_enabled)]);
        self.base.save_tail(&mut state);
        state
    }

    /// `after` is the mapper after a snapshot was loaded, and `ok` whether
    /// it was taken: one that is too short is refused and changes nothing.
    pub open spec fn loads_to(self, data: Seq<u8>, ok: bool, after: Self) -> bool {
        &&& ok == (data.len() >= 6)
        &&& !ok ==> after == self
        &&& ok ==> after.bank_remap_enabled == (data[0] != 0) && after.base.current_bank == data[1] && after.base.regs@ == data.subrange(2, 6) && after.base.rom_data == self.base.rom_data && after.base.rom_mask == self.base.rom_mask && after.base.config == self.base.config
    }

    /// Loads a snapshot; one shorter than six bytes is refused.
    pub fn load_state(&mut self, data: &[u8]) -> (ok: bool)
        ensures
            old(self).loads_to(data@, ok, *final(self)),
    {
        if data.len() < 6 {
            return false;
        }
        self.bank_remap_enabled = data[0] != 0;
        self.base.load_tail(data, 1);
        true
    }

    pub fn update_mapping(&self, memory_map: &mut MemoryMap)
        ensures
            final(memory_map).pages@ == self.base.remapped(
                |p: int| self.target(p),
                old(memory_map).pages@,
                CART_PAGES as int,
            ),
    {
        let changes = self.targets();
        self.base.apply_all(memory_map, &changes);
        assert(memory_map.pages@ =~= self.base.remapped(
            |p: int| self.target(p),
            old(memory_map).pages@,
            CART_PAGES as int,
        ));
    }
}

pub struct Sf004Mapper {
    pub base: BaseMapper,
    pub sram_enabled: bool,
    pub rom_access_enabled: bool,
    pub first_page_mirroring: bool,
    pub hardware_locked: bool,
    pub first_page_bank: u8,
}

impl Sf004Mapper {
    /// What the mapper wants of page `p`, for the first 32 pages: with
    /// ROM access off, nothing; with mirroring, the four banks from the
    /// first page's bank on, over and over; else the twenty banks from
    /// there on, wrapping at 32, and nothing above. The upper 32 pages
    /// stay.
    pub open spec fn target(&self, p: int) -> PageChange {
        if p >= 0x20 {
            PageChange::Keep
        } else if !self.rom_access_enabled {
            PageChange::Unmap
        } else if self.first_page_mirroring {
            PageChange::Rom(((self.first_page_bank * 4 + p % 4) * 0x1_0000) as u32)
        } else if p < 0x14 {
            PageChange::Rom((((self.first_page_bank * 4 + p) % 32) * 0x1_0000) as u32)
        } else {
            PageChange::Unmap
        }
    }

    /// What `init` wants of page `p`: the first four banks over the
    /// first 32 pages.
    pub open spec fn initial_target(p: int) -> PageChange {
        if p < 0x20 {
            PageChange::Rom(((p % 4) * 0x1_0000) as u32)
        } else {
            PageChange::Keep
        }
    }

    /// The mapper after a write to a register: 13 switches the save
    /// memory, 14 sets ROM access, mirroring and the lock, 15 sets the
    /// bank of the first page.
    pub open spec fn written(self, address: u32, data: u32) -> Sf004Mapper {
        if self.hardware_locked {
            self
        } else if sf_register(address) == 13 {
            Sf004Mapper { sram_enabled: data_bit(data, 7), ..self }
        } else if sf_register(address) == 14 {
            Sf004Mapper {
                rom_access_enabled: !data_bit(data, 5),
                first_page_mirroring: data_bit(data, 6),
                hardware_locked: !data_bit(data, 7),
                ..self
            }
        } else if sf_register(address) == 15 {
            Sf004Mapper { first_page_bank: ((data / 16) % 8) as u8, ..self }
        } else {
            self
        }
    }

    /// The snapshot of the mapper.
    pub open spec fn snapshot(&self) -> Seq<u8> {
        seq![
            flag_of(self.sram_enabled),
            flag_of(self.rom_access_enabled),
            flag_of(self.first_page_mirroring),
            flag_of(self.hardware_locked),
            self.first_page_bank,
        ] + self.base.snapshot_tail()
    }

    pub fn new() -> (r: Self)
        ensures
            !r.sram_enabled,
            r.rom_access_enabled,
            r.first_page_mirroring,
            !r.hardware_locked,
            r.first_page_bank == 0,
            r.base.rom_data@.len() == 0,
            r.base.current_bank == 0,
    {
        Sf004Mapper {
            base: BaseMapper::new(),
            sram_enabled: false,
            rom_access_enabled: true,
            first_page_mirroring: true,
            hardware_locked: false,
            first_page_bank: 0,
        }
    }

    fn targets(&self) -> (r: [PageChange; 64])
        ensures
            forall|p: int| 0 <= p < CART_PAGES ==> r[p] == self.target(p),
    {
        let mut changes: [PageChange; 64] = [PageChange::Keep; 64];
        let base: u32 = (self.first_page_bank as u32) * 4;
        let mut i: usize = 0;
        while i < CART_PAGES
            invariant
                i <= CART_PAGES,
                base == self.first_page_bank * 4,
                forall|p: int| 0 <= p < i ==> changes[p] == self.target(p),
            decreases CART_PAGES - i,
        {
            changes[i] = if i >= 0x20 {
                PageChange::Keep
            } else if !self.rom_access_enabled {
                PageChange::Unmap
            } else if self.first_page_mirroring {
                PageChange::Rom((base + (i as u32) % 4) * 0x1_0000)
            } else if i < 0x14 {
                PageChange::Rom(((base + i as u32) % 32) * 0x1_0000)
            } else {
                PageChange::Unmap
            };
            i = i + 1;
        }
        changes
    }

    pub fn init(&mut self, rom_info: &RomInfo, rom_data: &[u8], memory_map: &mut MemoryMap)
        ensures
            final(self).base.rom_data@ == rom_data@,
            final(self).base.config == config_for(MapperType::Sf004),
            final(self).first_page_mirroring,
            final(self).first_page_bank == 0,
            final(self).sram_enabled == old(self).sram_enabled,
            final(self).rom_access_enabled == old(self).rom_access_enabled,
            final(self).hardware_locked == old(self).hardware_locked,
            final(memory_map).pages@ == final(self).base.remapped(
                |p: int| Self::initial_target(p),
                old(memory_map).pages@,
                CART_PAGES as int,
            ),
    {
        self.base.setup_rom_mirroring(rom_data);
        self.base.config = get_mapper_config(MapperType::Sf004, rom_info);
        let mut changes: [PageChange; 64] = [PageChange::Keep; 64];
        let mut i: usize = 0;
        while i < CART_PAGES
            invariant
                i <= CART_PAGES,
                forall|p: int| 0 <= p < i ==> changes[p] == Self::initial_target(p),
            decreases CART_PAGES - i,
        {
            changes[i] = if i < 0x20 {
                PageChange::Rom(((i as u32) % 4) * 0x1_0000)
            } else {
                PageChange::Keep
            };
            i = i + 1;
        }
        self.base.apply_all(memory_map, &changes);
        assert(memory_map.pages@ =~= self.base.remapped(
            |p: int| Self::initial_target(p),
            old(memory_map).pages@,
            CART_PAGES as int,
        ));
        self.first_page_mirroring = true;
        self.first_page_bank = 0;
    }

    /// `after` is the mapper after a reset: a soft one changes nothing.
    pub open spec fn resets_to(self, hard_reset: bool, after: Self) -> bool {
        &&& !hard_reset ==> after == self
        &&& hard_reset ==> after == (Sf004Mapper { sram_enabled: false, rom_access_enabled: true, first_page_mirroring: true, hardware_locked: false, first_page_bank: 0, base: BaseMapper { current_bank: 0, ..self.base }, })
    }

    pub fn reset(&mut self, hard_reset: bool)
        ensures
            old(self).resets_to(hard_reset, *final(self)),
    {
        if hard_reset {
            self.sram_enabled = false;
            self.rom_access_enabled = true;
            self.first_page_mirroring = true;
            self.hardware_locked = false;
            self.first_page_bank = 0;
            self.base.current_bank = 0;
        }
    }

    pub fn mapper_type(&self) -> (r: MapperType)
        ensures
            r == MapperType::Sf004,
    {
        MapperType::Sf004
    }

    pub fn config(&self) -> (r: &MapperConfig)
        ensures
            *r == self.base.config,
    {
        &self.base.config
    }

    /// `after` and `after_map` are the mapper and the page map after a
    /// write to the time window.
    pub open spec fn time_write_to(self, address: u32, data: u32, before_map: MemoryMap, after: Self, after_map: MemoryMap) -> bool {
        &&& after == self
        &&& after_map == before_map
    }

    pub fn handle_time_write(&mut self, address: u32, data: u32, memory_map: &mut MemoryMap)
        ensures
            old(self).time_write_to(address, data, *old(memory_map), *final(self), *final(memory_map)),
    {
    }

    /// Reads the bank of the first page, in bits 4 to 6.
    pub fn handle_time_read(&self, address: u32) -> (r: u32)
        ensures
            r == self.first_page_bank * 16,
    {
        (self.first_page_bank as u32) * 16
    }

    /// `after` and `after_map` are the mapper and the page map after a
    /// write to the register window.
    pub open spec fn register_write_to(self, address: u32, data: u32, before_map: MemoryMap, after: Self, after_map: MemoryMap) -> bool {
        &&& after == self.written(address, data)
        &&& self.hardware_locked || sf_register(address) < 13 ==> after_map == before_map
        &&& !self.hardware_locked && sf_register(address) >= 13 ==> after_map.pages@ == after.base.remapped(|p: int| after.target(p), before_map.pages@, CART_PAGES as int)
    }

    pub fn handle_register_write(&mut self, address: u32, data: u32, memory_map: &mut MemoryMap)
        ensures
            old(self).register_write_to(address, data, *old(memory_map), *final(self), *final(memory_map)),
    {
        if self.hardware_locked {
            return;
        }
        proof {
            crate::bits::lemma_pow2_values();
        }
        let register = (address / 256) % 16;
        if register == 0xD {
            self.sram_enabled = (data / 128) % 2 == 1;
            self.update_mapping(memory_map);
        } else if register == 0xE {
            self.rom_access_enabled = (data / 32) % 2 == 0;
            self.first_page_mirroring = (data / 64) % 2 == 1;
            if (data / 128) % 2 == 0 {
                self.hardware_locked = true;
            }
            self.update_mapping(memory_map);
        } else if register == 0xF {
            self.first_page_bank = ((data / 16) % 8) as u8;
            self.update_mapping(memory_map);
        }
    }

    pub fn handle_register_read(&self, address: u32) -> (r: u32)
        ensures
            r == 0xFF,
    {
        0xFF
    }

    pub fn save_state(&self) -> (state: Vec<u8>)
        ensures
            state@ == self.snapshot(),
    {
        let mut state: Vec<u8> = Vec::new();
        state.push(flag_byte(self.sram_enabled));
        state.push(flag_byte(self.rom_access_enabled));
        state.push(flag_byte(self.first_page_mirroring));
        state.push(flag_byte(self.hardware_locked));
        state.push(self.first_page_bank);
        assert(state@ =~= seq![
            flag_of(self.sram_enabled),
            flag_of(self.rom_access_enabled),
            flag_of(self.first_page_mirroring),
            flag_of(self.hardware_locked),
            self.first_page_bank,
        ]);
        self.base.save_tail(&mut state);
        state
    }

    /// `after` is the mapper after a snapshot was loaded, and `ok` whether
    /// it was taken: one that is too short is refused and changes nothing.
    pub open spec fn loads_to(self, data: Seq<u8>, ok: bool, after: Self) -> bool {
        &&& ok == (data.len() >= 10)
        &&& !ok ==> after == self
        &&& ok ==> after.sram_enabled == (data[0] != 0) && after.rom_access_enabled == (data[1] != 0) && after.first_page_mirroring == (data[2] != 0) && after.hardware_locked == (data[3] != 0) && after.first_page_bank == data[4] % 8 && after.base.current_bank == data[5] && after.base.regs@ == data.subrange(6, 10) && after.base.rom_data == self.base.rom_data && after.base.rom_mask == self.base.rom_mask && after.base.config == self.base.config
    }

    /// Loads a snapshot; one shorter than ten bytes is refused. The
    /// bank of the first page keeps its three bits.
    pub fn load_state(&mut self, data: &[u8]) -> (ok: bool)
        ensures
            old(self).loads_to(data@, ok, *final(self)),
    {
        if data.len() < 10 {
            return false;
        }
        self.sram_enabled = data[0] != 0;
        self.rom_access_enabled = data[1] != 0;
        self.first_page_mirroring = data[2] != 0;
        self.hardware_locked = data[3] != 0;
        self.first_page_bank = data[4] % 8;
        self.base.load_tail(data, 5);
        true
    }

    pub fn update_mapping(&self, memory_map: &mut MemoryMap)
        ensures
            final(memory_map).pages@ == self.base.remapped(
                |p: int| self.target(p),
                old(memory_map).pages@,
                CART_PAGES as int,
            ),
    {
        let changes = self.targets();
        self.base.apply_all(memory_map, &changes);
        assert(memory_map.pages@ =~= self.base.remapped(
            |p: int| self.target(p),
            old(memory_map).pages@,
            CART_PAGES as int,
        ));
    }
}

pub struct T5740Mapper {
    pub base: BaseMapper,
    pub mode_register: u8,
    /// The registers of pages 5, 6 and 7 of 512 KiB.
    pub page_registers: [u8; 3],
}

impl T5740Mapper {
    /// What the mapper wants of page `p`: each of the upper three
    /// blocks of eight pages shows the 512 KiB that its register names,
    /// if the register is not zero; everything else stays.
    pub open spec fn target(&self, p: int) -> PageChange {
        if 0x28 <= p < 0x40 && self.page_registers[(p - 0x28) / 8] != 0 {
            PageChange::Rom(
                ((self.page_registers[(p - 0x28) / 8] % 16) * 0x8_0000 + (p % 8) * 0x1_0000) as u32,
            )
        } else {
            PageChange::Keep
        }
    }

    /// The page register that an address of the time window selects,
    /// if any: 3, 5 and 7 in the low byte.
    pub open spec fn page_register(address: u32) -> Option<int> {
        if address % 256 == 3 {
            Some(0int)
        } else if address % 256 == 5 {
            Some(1int)
        } else if address % 256 == 7 {
            Some(2int)
        } else {
            None
        }
    }

    /// The snapshot of the mapper.
    pub open spec fn snapshot(&self) -> Seq<u8> {
        seq![self.mode_register] + self.page_registers@ + self.base.snapshot_tail()
    }

    pub fn new() -> (r: Self)
        ensures
            r.mode_register == 0,
            r.page_registers@ == seq![0u8, 0u8, 0u8],
            r.base.rom_data@.len() == 0,
            r.base.current_bank == 0,
    {
        let r = T5740Mapper { base: BaseMapper::new(), mode_register: 0, page_registers: [0; 3] };
        assert(r.page_registers@ =~= seq![0u8, 0u8, 0u8]);
        r
    }

    fn targets(&self) -> (r: [PageChange; 64])
        ensures
            forall|p: int| 0 <= p < CART_PAGES ==> r[p] == self.target(p),
    {
        let mut changes: [PageChange; 64] = [PageChange::Keep; 64];
        let mut i: usize = 0;
        while i < CART_PAGES
            invariant
                i <= CART_PAGES,
                forall|p: int| 0 <= p < i ==> changes[p] == self.target(p),
                forall|p: int| i <= p < CART_PAGES ==> changes[p] == PageChange::Keep,
            decreases CART_PAGES - i,
        {
            if i >= 0x28 {
                let register: u8 = self.page_registers[(i - 0x28) / 8];
                if register != 0 {
                    changes[i] = PageChange::Rom(((register % 16) as u32) * 0x8_0000 + ((i % 8) as u32) * 0x1_0000);
                }
            }
            i = i + 1;
        }
        changes
    }

    pub fn init(&mut self, rom_info: &RomInfo, rom_data: &[u8], memory_map: &mut MemoryMap)
        ensures
            final(self).base.rom_data@ == rom_data@,
            final(self).base.config == config_for(MapperType::T5740),
            final(self).mode_register == old(self).mode_register,
            final(self).page_registers == old(self).page_registers,
            final(memory_map).pages@ == final(self).base.remapped(
                |p: int| final(self).target(p),
                old(memory_map).pages@,
                CART_PAGES as int,
            ),
    {
        self.base.setup_rom_mirroring(rom_data);
        self.base.config = get_mapper_config(MapperType::T5740, rom_info);
        self.update_mapping(memory_map);
    }

    /// `after` is the mapper after a reset: a soft one changes nothing.
    pub open spec fn resets_to(self, hard_reset: bool, after: Self) -> bool {
        &&& !hard_reset ==> after == self
        &&& hard_reset ==> after.mode_register == 0 && after.page_registers@ == seq![0u8, 0u8, 0u8] && after.base == (BaseMapper { current_bank: 0, ..self.base })
    }

    pub fn reset(&mut self, hard_reset: bool)
        ensures
            old(self).resets_to(hard_reset, *final(self)),
    {
        if hard_reset {
            self.mode_register = 0;
            self.page_registers = [0; 3];
            self.base.current_bank = 0;
            assert(self.page_registers@ =~= seq![0u8, 0u8, 0u8]);
        }
    }

    pub fn mapper_type(&self) -> (r: MapperType)
        ensures
            r == MapperType::T5740,
    {
        MapperType::T5740
    }

    pub fn config(&self) -> (r: &MapperConfig)
        ensures
            *r == self.base.config,
    {
        &self.base.config
    }

    /// `after` and `after_map` are the mapper and the page map after a
    /// write to the time window.
    pub open spec fn time_write_to(self, address: u32, data: u32, before_map: MemoryMap, after: Self, after_map: MemoryMap) -> bool {
        &&& after.base == self.base
        &&& after.mode_register == (if address % 256 == 1 { (data % 256) as u8 } else { self.mode_register })
        &&& after.page_registers@ == (match Self::page_register(address) { Some(k) => self.page_registers@.update(k, (data % 256) as u8), None => self.page_registers@, })
        &&& Self::page_register(address) is None ==> after_map == before_map
        &&& Self::page_register(address) is Some ==> after_map.pages@ == after.base.remapped( |p: int| after.target(p), before_map.pages@, CART_PAGES as int, )
    }

    /// A write to the time window: 1 in the low byte of the address is
    /// the mode register, 3, 5 and 7 are the page registers.
    pub fn handle_time_write(&mut self, address: u32, data: u32, memory_map: &mut MemoryMap)
        ensures
            old(self).time_write_to(address, data, *old(memory_map), *final(self), *final(memory_map)),
    {
        let low = address % 256;
        let value: u8 = (data % 256) as u8;
        if low == 0x01 {
            self.mode_register = value;
        } else if low == 0x03 {
            self.page_registers[0] = value;
            self.update_mapping(memory_map);
        } else if low == 0x05 {
            self.page_registers[1] = value;
            self.update_mapping(memory_map);
        } else if low == 0x07 {
            self.page_registers[2] = value;
            self.update_mapping(memory_map);
        }
    }

    /// Reads the time window: addresses 0x8100 to 0x81FF in the low 16
    /// bits read the ROM at the low 15 bits; the rest, and what lies
    /// past the ROM, 0xFF.
    pub fn handle_time_read(&self, address: u32) -> (r: u32)
        ensures
            r == (if (address / 256) % 256 == 0x81 && address % 0x8000 < self.base.rom_data@.len() {
                self.base.rom_data@[(address % 0x8000) as int] as u32
            } else {
                0xFFu32
            }),
    {
        if (address / 256) % 256 == 0x81 {
            let offset: usize = (address % 0x8000) as usize;
            if offset < self.base.rom_data.len() {
                return self.base.rom_data[offset] as u32;
            }
        }
        0xFF
    }

    /// `after` and `after_map` are the mapper and the page map after a
    /// write to the register window.
    pub open spec fn register_write_to(self, address: u32, data: u32, before_map: MemoryMap, after: Self, after_map: MemoryMap) -> bool {
        &&& after == self
        &&& after_map == before_map
    }

    pub fn handle_register_write(&mut self, address: u32, data: u32, memory_map: &mut MemoryMap)
        ensures
            old(self).register_write_to(address, data, *old(memory_map), *final(self), *final(memory_map)),
    {
    }

    pub fn handle_register_read(&self, address: u32) -> (r: u32)
        ensures
            r == 0xFF,
    {
        0xFF
    }

    pub fn save_state(&self) -> (state: Vec<u8>)
        ensures
            state@ == self.snapshot(),
    {
        let mut state: Vec<u8> = Vec::new();
        state.push(self.mode_register);
        state.push(self.page_registers[0]);
        state.push(self.page_registers[1]);
        state.push(self.page_registers[2]);
        assert(state@ =~= seq![self.mode_register] + self.page_registers@);
        self.base.save_tail(&mut state);
        state
    }

    /// `after` is the mapper after a snapshot was loaded, and `ok` whether
    /// it was taken: one that is too short is refused and changes nothing.
    pub open spec fn loads_to(self, data: Seq<u8>, ok: bool, after: Self) -> bool {
        &&& ok == (data.len() >= 9)
        &&& !ok ==> after == self
        &&& ok ==> after.mode_register == data[0] && after.page_registers@ == data.subrange(1, 4) && after.base.current_bank == data[4] && after.base.regs@ == data.subrange(5, 9) && after.base.rom_data == self.base.rom_data && after.base.rom_mask == self.base.rom_mask && after.base.config == self.base.config
    }

    /// Loads a snapshot; one shorter than nine bytes is refused.
    pub fn load_state(&mut self, data: &[u8]) -> (ok: bool)
        ensures
            old(self).loads_to(data@, ok, *final(self)),
    {
        if data.len() < 9 {
            return false;
        }
        self.mode_register = data[0];
        self.page_registers = [data[1], data[2], data[3]];
        assert(self.page_registers@ =~= data@.subrange(1, 4));
        self.base.load_tail(data, 4);
        true
    }

    pub fn update_mapping(&self, memory_map: &mut MemoryMap)
        ensures
            final(memory_map).pages@ == self.base.remapped(
                |p: int| self.target(p),
                old(memory_map).pages@,
                CART_PAGES as int,
            ),
    {
        let changes = self.targets();
        self.base.apply_all(memory_map, &changes);
        assert(memory_map.pages@ =~= self.base.remapped(
            |p: int| self.target(p),
            old(memory_map).pages@,
            CART_PAGES as int,
        ));
    }
}

} // verus!
