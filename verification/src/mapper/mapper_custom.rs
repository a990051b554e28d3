//! Mappers of unlicensed and home-made cartridges: bank switching by 32
//! and 64 KiB, a multi-game menu, and two boards with hardware of their
//! own.

use vstd::prelude::*;
use crate::bits::{flag_byte, flag_of, push_bytes};
use crate::mapper::mapper_common::{BaseMapper, MapperConfig, MapperType, MemoryMap, PageChange, CART_PAGES};
use crate::mapper::mapper_database::{config_for, get_mapper_config};
use crate::mapper::sms::korean::{reverse_bits, reversed_bits};
use crate::mapper::RomInfo;
use crate::text::{contains_text, occurs_in};

verus! {

/// Bytes of a snapshot.
pub const SNAPSHOT_BYTES: usize = 24;

/// First address of the time window that is not a bank register.
pub const TIME_BANK_END: u32 = 0xA1_3060;

#[derive(Clone, Copy, Debug, PartialEq, Eq, Structural)]
pub enum CustomMapperVariant {
    Bankswitch32K,
    Bankswitch64K,
    MultiGame,
    Wd1601,
    Smw64,
    Plain,
}

/// The number of a variant in a snapshot.
pub open spec fn variant_code(v: CustomMapperVariant) -> u8 {
    match v {
        CustomMapperVariant::Bankswitch32K => 0,
        CustomMapperVariant::Bankswitch64K => 1,
        CustomMapperVariant::MultiGame => 2,
        CustomMapperVariant::Wd1601 => 3,
        CustomMapperVariant::Smw64 => 4,
        CustomMapperVariant::Plain => 5,
    }
}

/// The variant with a number in a snapshot.
pub open spec fn variant_of_code(code: u8) -> CustomMapperVariant {
    if code == 0 {
        CustomMapperVariant::Bankswitch32K
    } else if code == 1 {
        CustomMapperVariant::Bankswitch64K
    } else if code == 2 {
        CustomMapperVariant::MultiGame
    } else if code == 3 {
        CustomMapperVariant::Wd1601
    } else if code == 4 {
        CustomMapperVariant::Smw64
    } else {
        CustomMapperVariant::Plain
    }
}

/// The variant of a cartridge, by its checksums and product code.
pub open spec fn variant_for(checksum: u16, real_checksum: u16, product: Seq<char>) -> CustomMapperVariant {
    if checksum == 0x8180 {
        CustomMapperVariant::Bankswitch64K
    } else if real_checksum == 0x5D8B || real_checksum == 0x5D34 || real_checksum == 0x1B40 || real_checksum
        == 0x17E5 {
        CustomMapperVariant::Bankswitch32K
    } else if occurs_in(product, "T-119186"@) {
        CustomMapperVariant::MultiGame
    } else if real_checksum == 0xF894 {
        CustomMapperVariant::Smw64
    } else {
        CustomMapperVariant::Plain
    }
}

/// The third register of the 32 KiB bank switch: the first register,
/// turned as the low two bits of the second ask: shifted left, shifted
/// right, its halves swapped, or its bits reversed.
pub open spec fn scrambled(value: u8, mode: u8) -> u8 {
    if mode % 4 == 0 {
        value << 1u8
    } else if mode % 4 == 1 {
        value >> 1u8
    } else if mode % 4 == 2 {
        (value >> 4u8) | ((value & 0x0F) << 4u8)
    } else {
        reversed_bits(value)
    }
}

/// What page `p` shows while the first `count` pages show the ROM bank
/// by bank.
pub open spec fn low_linear(count: int, p: int) -> PageChange {
    if p < count {
        PageChange::Rom((p * 0x1_0000) as u32)
    } else {
        PageChange::Keep
    }
}

/// What page `p` shows after a bank was switched in over the first
/// sixteen pages by 32 KiB: the page's own bank with the bank number,
/// counted in 32 KiB, on top.
pub open spec fn switched_32k(bank: u32, p: int) -> PageChange {
    if p < 0x10 {
        PageChange::Rom((((p * 0x1_0000) as u32) | ((bank * 0x8000) as u32)))
    } else {
        PageChange::Keep
    }
}

/// What page `p` shows after a bank was switched in over the first
/// sixteen pages by 64 KiB: the one bank everywhere.
pub open spec fn switched_64k(bank: u32, p: int) -> PageChange {
    if p < 0x10 {
        PageChange::Rom((bank * 0x1_0000) as u32)
    } else {
        PageChange::Keep
    }
}

/// What page `p` shows after a write to the bank registers of the time
/// window: the banks from the address on, wrapping at 64.
pub open spec fn rotated(address: u32, p: int) -> PageChange {
    PageChange::Rom((((address + p) % 64) * 0x1_0000) as u32)
}

/// What page `p` shows on the board with the WD1601 once its save
/// memory is in: the upper 2 MiB of ROM in the lower half, save memory
/// in the upper.
pub open spec fn wd1601_target(p: int) -> PageChange {
    if p < 0x20 {
        PageChange::Rom(((0x20 + p) * 0x1_0000) as u32)
    } else {
        PageChange::Sram
    }
}

/// What page `p` shows on the Super Mario World 64 board: eight banks,
/// twice, in the first sixteen pages.
pub open spec fn smw64_target(p: int) -> PageChange {
    if p < 0x10 {
        PageChange::Rom(((p % 8) * 0x1_0000) as u32)
    } else {
        PageChange::Keep
    }
}

pub struct CustomMapper {
    pub base: BaseMapper,
    pub mapper_variant: CustomMapperVariant,
    pub regs_extended: [u8; 16],
    pub bank_mode: u8,
    pub sram_mapped: bool,
}

impl CustomMapper {
    /// What the mapper wants of page `p`: save memory in the upper half
    /// on the WD1601 board once it is in, else the ROM bank by bank.
    pub open spec fn target(&self, p: int) -> PageChange {
        if self.mapper_variant == CustomMapperVariant::Wd1601 && self.sram_mapped {
            if p >= 0x20 {
                PageChange::Sram
            } else {
                PageChange::Keep
            }
        } else {
            PageChange::Rom((p * 0x1_0000) as u32)
        }
    }

    /// The register that an address selects: bits 1 and 2.
    pub open spec fn register_of(address: u32) -> int {
        ((address / 2) % 4) as int
    }

    /// The snapshot of the mapper.
    pub open spec fn snapshot(&self) -> Seq<u8> {
        seq![variant_code(self.mapper_variant)] + self.regs_extended@ + seq![
            self.bank_mode,
            flag_of(self.sram_mapped),
        ] + self.base.snapshot_tail()
    }

    pub fn new() -> (r: Self)
        ensures
            r.mapper_variant == CustomMapperVariant::Plain,
            r.regs_extended@ == Seq::new(16, |i: int| 0u8),
            r.bank_mode == 0,
            !r.sram_mapped,
            r.base.rom_data@.len() == 0,
            r.base.current_bank == 0,
            r.base.regs@ == seq![0u8, 0u8, 0u8, 0u8],
    {
        let r = CustomMapper {
            base: BaseMapper::new(),
            mapper_variant: CustomMapperVariant::Plain,
            regs_extended: [0; 16],
            bank_mode: 0,
            sram_mapped: false,
        };
        assert(r.regs_extended@ =~= Seq::new(16, |i: int| 0u8));
        r
    }

    fn determine_variant(&mut self, rom_info: &RomInfo)
        ensures
            *final(self) == (CustomMapper {
                mapper_variant: variant_for(rom_info.checksum, rom_info.real_checksum, rom_info.product@),
                ..*old(self)
            }),
    {
        if rom_info.checksum == 0x8180 {
            self.mapper_variant = CustomMapperVariant::Bankswitch64K;
        } else if rom_info.real_checksum == 0x5D8B || rom_info.real_checksum == 0x5D34 || rom_info.real_checksum
            == 0x1B40 || rom_info.real_checksum == 0x17E5 {
            self.mapper_variant = CustomMapperVariant::Bankswitch32K;
        } else if contains_text(rom_info.product.as_str(), "T-119186") {
            self.mapper_variant = CustomMapperVariant::MultiGame;
        } else if rom_info.real_checksum == 0xF894 {
            self.mapper_variant = CustomMapperVariant::Smw64;
        } else {
            self.mapper_variant = CustomMapperVariant::Plain;
        }
    }

    /// The changes that a rule names for each page of the cartridge
    /// area. Rule 0 is the mapper's own; 1 and 2 map the first sixteen
    /// pages linearly; 3 and 4 switch a bank in by 32 and 64 KiB; 5
    /// rotates the banks; 6 is the WD1601 board's; 7 the Super Mario
    /// World 64 board's.
    fn changes_for(&self, rule: u8, argument: u32) -> (r: [PageChange; 64])
        requires
            rule <= 7,
            rule == 3 || rule == 4 ==> argument < 64,
        ensures
            forall|p: int| 0 <= p < CART_PAGES ==> r[p] == self.rule_target(rule, argument, p),
    {
        let mut changes: [PageChange; 64] = [PageChange::Keep; 64];
        let mut i: usize = 0;
        while i < CART_PAGES
            invariant
                i <= CART_PAGES,
                rule <= 7,
                rule == 3 || rule == 4 ==> argument < 64,
                forall|p: int| 0 <= p < i ==> changes[p] == self.rule_target(rule, argument, p),
            decreases CART_PAGES - i,
        {
            let page: u32 = i as u32;
            changes[i] = if rule == 0 {
                if self.mapper_variant == CustomMapperVariant::Wd1601 && self.sram_mapped {
                    if i >= 0x20 {
                        PageChange::Sram
                    } else {
                        PageChange::Keep
                    }
                } else {
                    PageChange::Rom(page * 0x1_0000)
                }
            } else if rule == 1 || rule == 2 {
                if i < 0x10 {
                    PageChange::Rom(page * 0x1_0000)
                } else {
                    PageChange::Keep
                }
            } else if rule == 3 {
                if i < 0x10 {
                    PageChange::Rom((page * 0x1_0000) | (argument * 0x8000))
                } else {
                    PageChange::Keep
                }
            } else if rule == 4 {
                if i < 0x10 {
                    PageChange::Rom(argument * 0x1_0000)
                } else {
                    PageChange::Keep
                }
            } else if rule == 5 {
                PageChange::Rom((((argument as u64 + page as u64) % 64) as u32) * 0x1_0000)
            } else if rule == 6 {
                if i < 0x20 {
                    PageChange::Rom((0x20 + page) * 0x1_0000)
                } else {
                    PageChange::Sram
                }
            } else {
                if i < 0x10 {
                    PageChange::Rom((page % 8) * 0x1_0000)
                } else {
                    PageChange::Keep
                }
            };
            i = i + 1;
        }
        changes
    }

    /// What a rule names for page `p`.
    pub open spec fn rule_target(&self, rule: u8, argument: u32, p: int) -> PageChange {
        if rule == 0 {
            self.target(p)
        } else if rule == 1 || rule == 2 {
            low_linear(0x10, p)
        } else if rule == 3 {
            switched_32k(argument, p)
        } else if rule == 4 {
            switched_64k(argument, p)
        } else if rule == 5 {
            rotated(argument, p)
        } else if rule == 6 {
            wd1601_target(p)
        } else {
            smw64_target(p)
        }
    }

    fn remap(&self, memory_map: &mut MemoryMap, rule: u8, argument: u32)
        requires
            rule <= 7,
            rule == 3 || rule == 4 ==> argument < 64,
        ensures
            final(memory_map).pages@ == self.base.remapped(
                |p: int| self.rule_target(rule, argument, p),
                old(memory_map).pages@,
                CART_PAGES as int,
            ),
    {
        let changes = self.changes_for(rule, argument);
        self.base.apply_all(memory_map, &changes);
        assert(memory_map.pages@ =~= self.base.remapped(
            |p: int| self.rule_target(rule, argument, p),
            old(memory_map).pages@,
            CART_PAGES as int,
        ));
    }

    /// Takes the ROM and tells the variant. The Super Mario World 64
    /// board maps its eight banks and its own hardware at 0x600000; the
    /// others map as `update_mapping` does.
    pub fn init(&mut self, rom_info: &RomInfo, rom_data: &[u8], memory_map: &mut MemoryMap)
        ensures
            final(self).base.rom_data@ == rom_data@,
            final(self).base.config == config_for(MapperType::Custom),
            final(self).mapper_variant == variant_for(rom_info.checksum, rom_info.real_checksum, rom_info.product@),
            final(self).regs_extended == old(self).regs_extended,
            final(self).bank_mode == old(self).bank_mode,
            final(self).sram_mapped == old(self).sram_mapped,
            final(self).mapper_variant != CustomMapperVariant::Smw64 ==> final(memory_map).pages@ == final(self).base.remapped(|p: int| final(self).target(p), old(memory_map).pages@, CART_PAGES as int),
            final(self).mapper_variant == CustomMapperVariant::Smw64 ==> final(memory_map).pages@ == Seq::new(
                256,
                |p: int|
                    if 0x60 <= p < 0x70 {
                        crate::mapper::mapper_common::PageEntry::Custom
                    } else {
                        final(self).base.remapped(
                            |q: int| smw64_target(q),
                            old(memory_map).pages@,
                            CART_PAGES as int,
                        )[p]
                    },
            ),
    {
        self.base.setup_rom_mirroring(rom_data);
        self.base.config = get_mapper_config(MapperType::Custom, rom_info);
        self.determine_variant(rom_info);
        if self.mapper_variant == CustomMapperVariant::Smw64 {
            self.remap(memory_map, 7, 0);
            let ghost mapped = memory_map.pages@;
            let mut i: u32 = 0x60;
            while i < 0x70
                invariant
                    0x60 <= i <= 0x70,
                    memory_map.pages@.len() == 256,
                    forall|p: int|
                        0 <= p < 256 ==> #[trigger] memory_map.pages[p] == (if 0x60 <= p < i {
                            crate::mapper::mapper_common::PageEntry::Custom
                        } else {
                            mapped[p]
                        }),
                decreases 0x70 - i,
            {
                memory_map.map_custom(i);
                i = i + 1;
            }
            assert(memory_map.pages@ =~= Seq::new(
                256,
                |p: int|
                    if 0x60 <= p < 0x70 {
                        crate::mapper::mapper_common::PageEntry::Custom
                    } else {
                        self.base.remapped(|q: int| smw64_target(q), old(memory_map).pages@, CART_PAGES as int)[p]
                    },
            ));
        } else {
            self.update_mapping(memory_map);
        }
    }

    /// `after` is the mapper after a reset: a soft one changes nothing.
    pub open spec fn resets_to(self, hard_reset: bool, after: Self) -> bool {
        &&& !hard_reset ==> after == self
        &&& hard_reset ==> after.mapper_variant == self.mapper_variant && after.regs_extended@ == Seq::new(16, |i: int| 0u8) && after.bank_mode == 0 && !after.sram_mapped && after.base.current_bank == 0 && after.base.regs@ == seq![0u8, 0u8, 0u8, 0u8] && after.base.rom_data == self.base.rom_data && after.base.rom_mask == self.base.rom_mask && after.base.config == self.base.config
    }

    pub fn reset(&mut self, hard_reset: bool)
        ensures
            old(self).resets_to(hard_reset, *final(self)),
    {
        if hard_reset {
            self.regs_extended = [0; 16];
            self.bank_mode = 0;
            self.sram_mapped = false;
            self.base.current_bank = 0;
            self.base.regs = [0; 4];
            assert(self.regs_extended@ =~= Seq::new(16, |i: int| 0u8));
            assert(self.base.regs@ =~= seq![0u8, 0u8, 0u8, 0u8]);
        }
    }

    pub fn mapper_type(&self) -> (r: MapperType)
        ensures
            r == MapperType::Custom,
    {
        MapperType::Custom
    }

    pub fn config(&self) -> (r: &MapperConfig)
        ensures
            *r == self.base.config,
    {
        &self.base.config
    }

    /// `after` and `after_map` are the mapper and the page map after a
    /// write to the time window.
    pub open spec fn time_write_to(self, address: u32, data: u32, before_map: MemoryMap, after: Self, after_map: MemoryMap) -> bool {
        &&& after.base == self.base
        &&& after.mapper_variant == self.mapper_variant
        &&& after.regs_extended == self.regs_extended
        &&& after.bank_mode == self.bank_mode
        &&& self.mapper_variant == CustomMapperVariant::Wd1601 && (address % 256) / 2 == 1 ==> after.sram_mapped && after_map.pages@ == self.base.remapped( |p: int| wd1601_target(p), before_map.pages@, CART_PAGES as int, )
        &&& self.mapper_variant == CustomMapperVariant::Wd1601 && (address % 256) / 2 != 1 ==> after == self && after_map == before_map
        &&& self.mapper_variant != CustomMapperVariant::Wd1601 ==> after == self
        &&& self.mapper_variant != CustomMapperVariant::Wd1601 && address < TIME_BANK_END ==> after_map.pages@ == self.base.remapped( |p: int| rotated(address, p), before_map.pages@, CART_PAGES as int, )
        &&& self.mapper_variant != CustomMapperVariant::Wd1601 && address >= TIME_BANK_END ==> after_map == before_map
    }

    /// A write to the time window. On the WD1601 board, address 2 or 3
    /// in the low byte brings the save memory in; on the others, a
    /// write below 0xA13060 rotates the banks.
    pub fn handle_time_write(&mut self, address: u32, data: u32, memory_map: &mut MemoryMap)
        ensures
            old(self).time_write_to(address, data, *old(memory_map), *final(self), *final(memory_map)),
    {
        if self.mapper_variant == CustomMapperVariant::Wd1601 {
            if (address % 256) / 2 == 1 {
                self.sram_mapped = true;
                self.remap(memory_map, 6, 0);
                assert(memory_map.pages@ =~= old(self).base.remapped(
                    |p: int| wd1601_target(p),
                    old(memory_map).pages@,
                    CART_PAGES as int,
                ));
            }
        } else if address < TIME_BANK_END {
            self.remap(memory_map, 5, address);
            assert(memory_map.pages@ =~= old(self).base.remapped(
                |p: int| rotated(address, p),
                old(memory_map).pages@,
                CART_PAGES as int,
            ));
        }
    }

    pub fn handle_time_read(&self, address: u32) -> (r: u32)
        ensures
            r == 0xFFFF,
    {
        0xFFFF
    }

    /// `after` and `after_map` are the mapper and the page map after a
    /// write to the register window.
    pub open spec fn register_write_to(self, address: u32, data: u32, before_map: MemoryMap, after: Self, after_map: MemoryMap) -> bool {
        &&& after.mapper_variant == self.mapper_variant
        &&& after.regs_extended == self.regs_extended
        &&& after.bank_mode == self.bank_mode
        &&& after.sram_mapped == self.sram_mapped
        &&& after.base.rom_data == self.base.rom_data
        &&& after.base.rom_mask == self.base.rom_mask
        &&& after.base.config == self.base.config
        &&& after.base.current_bank == self.base.current_bank
        &&& self.switches_bank(address) ==> after.base.regs == self.base.regs && after_map.pages@ == self.base.remapped( |p: int| self.switch_target(data, p), before_map.pages@, CART_PAGES as int, )
        &&& !self.switches_bank(address) ==> after_map == before_map && after.base.regs@ == self.regs_after(address, data)
    }

    /// A write to the register window. On the bank-switching boards a
    /// write above their register page switches a bank in over the
    /// first sixteen pages, or back out with 0; every other write sets
    /// one of the four registers, and on the 32 KiB board derives the
    /// third from the first two.
    pub fn handle_register_write(&mut self, address: u32, data: u32, memory_map: &mut MemoryMap)
        ensures
            old(self).register_write_to(address, data, *old(memory_map), *final(self), *final(memory_map)),
    {
        let page = address / 0x1_0000;
        let register: usize = ((address / 2) % 4) as usize;
        let value: u8 = (data % 256) as u8;
        match self.mapper_variant {
            CustomMapperVariant::Bankswitch32K => {
                if page > 0x6F {
                    if data != 0 {
                        self.remap(memory_map, 3, data % 64);
                    } else {
                        self.remap(memory_map, 1, 0);
                    }
                    assert(memory_map.pages@ =~= old(self).base.remapped(
                        |p: int| old(self).switch_target(data, p),
                        old(memory_map).pages@,
                        CART_PAGES as int,
                    ));
                } else {
                    self.base.regs[register] = value;
                    let temp = self.base.regs[0];
                    let mode = self.base.regs[1] % 4;
                    self.base.regs[2] = if mode == 0 {
                        temp << 1u8
                    } else if mode == 1 {
                        temp >> 1u8
                    } else if mode == 2 {
                        (temp >> 4u8) | ((temp & 0x0F) << 4u8)
                    } else {
                        reverse_bits(temp)
                    };
                }
            },
            CustomMapperVariant::Bankswitch64K => {
                if page > 0x5F {
                    if data != 0 {
                        self.remap(memory_map, 4, data % 16);
                    } else {
                        self.remap(memory_map, 2, 0);
                    }
                    assert(memory_map.pages@ =~= old(self).base.remapped(
                        |p: int| old(self).switch_target(data, p),
                        old(memory_map).pages@,
                        CART_PAGES as int,
                    ));
                } else {
                    self.base.regs[register] = value;
                }
            },
            _ => {
                self.base.regs[register] = value;
            },
        }
    }

    /// A write at `address` switches a bank rather than set a register.
    pub open spec fn switches_bank(&self, address: u32) -> bool {
        (self.mapper_variant == CustomMapperVariant::Bankswitch32K && address / 0x1_0000 > 0x6F) || (
        self.mapper_variant == CustomMapperVariant::Bankswitch64K && address / 0x1_0000 > 0x5F)
    }

    /// What a bank switch with `data` wants of page `p`.
    pub open spec fn switch_target(&self, data: u32, p: int) -> PageChange {
        if data == 0 {
            low_linear(0x10, p)
        } else if self.mapper_variant == CustomMapperVariant::Bankswitch32K {
            switched_32k(data % 64, p)
        } else {
            switched_64k(data % 16, p)
        }
    }

    /// The four registers after a register was set.
    pub open spec fn regs_after(&self, address: u32, data: u32) -> Seq<u8> {
        let stored = self.base.regs@.update(Self::register_of(address), (data % 256) as u8);
        if self.mapper_variant == CustomMapperVariant::Bankswitch32K {
            stored.update(2, scrambled(stored[0], stored[1]))
        } else {
            stored
        }
    }

    /// Reads the register window: the first register where the address
    /// lies on the start of the save-memory window under its mask, else
    /// 0xFF.
    pub fn handle_register_read(&self, address: u32) -> (r: u32)
        ensures
            r == (if (address & self.base.config.sram_mask) == self.base.config.sram_start {
                self.base.regs[0] as u32
            } else {
                0xFFu32
            }),
    {
        if (address & self.base.config.sram_mask) == self.base.config.sram_start {
            self.base.regs[0] as u32
        } else {
            0xFF
        }
    }

    pub fn save_state(&self) -> (state: Vec<u8>)
        ensures
            state@ == self.snapshot(),
            state@.len() == SNAPSHOT_BYTES,
    {
        let mut state: Vec<u8> = Vec::new();
        state.push(
            match self.mapper_variant {
                CustomMapperVariant::Bankswitch32K => 0,
                CustomMapperVariant::Bankswitch64K => 1,
                CustomMapperVariant::MultiGame => 2,
                CustomMapperVariant::Wd1601 => 3,
                CustomMapperVariant::Smw64 => 4,
                CustomMapperVariant::Plain => 5,
            },
        );
        assert(state@ =~= seq![variant_code(self.mapper_variant)]);
        push_bytes(&mut state, self.regs_extended.as_slice());
        let ghost head = state@;
        state.push(self.bank_mode);
        state.push(flag_byte(self.sram_mapped));
        assert(state@ =~= head + seq![self.bank_mode, flag_of(self.sram_mapped)]);
        self.base.save_tail(&mut state);
        state
    }

    /// `after` is the mapper after a snapshot was loaded, and `ok` whether
    /// it was taken: one that is too short is refused and changes nothing.
    pub open spec fn loads_to(self, data: Seq<u8>, ok: bool, after: Self) -> bool {
        &&& ok == (data.len() >= SNAPSHOT_BYTES)
        &&& !ok ==> after == self
        &&& ok ==> after.mapper_variant == variant_of_code(data[0]) && after.regs_extended@ == data.subrange(1, 17) && after.bank_mode == data[17] && after.sram_mapped == ( data[18] != 0) && after.base.current_bank == data[19] && after.base.regs@ == data.subrange(20, 24) && after.base.rom_data == self.base.rom_data && after.base.rom_mask == self.base.rom_mask && after.base.config == self.base.config
    }

    /// Loads a snapshot; one shorter than a snapshot is refused.
    pub fn load_state(&mut self, data: &[u8]) -> (ok: bool)
        ensures
            old(self).loads_to(data@, ok, *final(self)),
    {
        if data.len() < SNAPSHOT_BYTES {
            return false;
        }
        let code = data[0];
        self.mapper_variant = if code == 0 {
            CustomMapperVariant::Bankswitch32K
        } else if code == 1 {
            CustomMapperVariant::Bankswitch64K
        } else if code == 2 {
            CustomMapperVariant::MultiGame
        } else if code == 3 {
            CustomMapperVariant::Wd1601
        } else if code == 4 {
            CustomMapperVariant::Smw64
        } else {
            CustomMapperVariant::Plain
        };
        let mut i: usize = 0;
        while i < 16
            invariant
                i <= 16,
                data@.len() >= SNAPSHOT_BYTES,
                self.mapper_variant == variant_of_code(data@[0]),
                self.base == old(self).base,
                self.bank_mode == old(self).bank_mode,
                self.sram_mapped == old(self).sram_mapped,
                forall|j: int| 0 <= j < i ==> self.regs_extended[j] == data@[1 + j],
            decreases 16 - i,
        {
            self.regs_extended[i] = data[1 + i];
            i = i + 1;
        }
        assert(self.regs_extended@ =~= data@.subrange(1, 17));
        self.bank_mode = data[17];
        self.sram_mapped = data[18] != 0;
        self.base.load_tail(data, 19);
        true
    }

    pub fn update_mapping(&self, memory_map: &mut MemoryMap)
        ensures
            final(memory_map).pages@ == self.base.remapped(
                |p: int| self.target(p),
                old(memory_map).pages@,
                CART_PAGES as int,
            ),
    {
        self.remap(memory_map, 0, 0);
        assert(memory_map.pages@ =~= self.base.remapped(
            |p: int| self.target(p),
            old(memory_map).pages@,
            CART_PAGES as int,
        ));
    }
}

} // verus!
