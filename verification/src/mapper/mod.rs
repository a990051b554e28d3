//! Cartridge mappers: the bank-switching hardware of Mega Drive and
//! Master System cartridges.

use vstd::prelude::*;
use crate::crc32::{calculate, crc32_of};
use crate::mapper::mapper_common::{
    has_sms_header,
    detect_sms_header,
    BaseMapper,
    MapperType,
    MemoryMap,
    PageEntry,
    SmsSystemType,
    CART_PAGES,
};
use crate::mapper::mapper_custom::CustomMapper;
use crate::mapper::mapper_database::{detect_mapper, mapper_of};
use crate::mapper::mapper_flash::FlashMapper;
use crate::mapper::mapper_radica::RadicaMapper;
use crate::mapper::mapper_realtec::RealtecMapper;
use crate::mapper::mapper_sf::{Sf001Mapper, Sf002Mapper, Sf004Mapper, T5740Mapper};
use crate::mapper::sms::SmsCartridge;
use crate::text::{contains_text, ends_in, ends_with_text, lowercase, lowercase_of, occurs_in};

pub mod mapper_common;
pub mod mapper_custom;
pub mod mapper_database;
pub mod mapper_handlers;
pub mod mapper_flash;
pub mod mapper_radica;
pub mod mapper_realtec;
pub mod mapper_sf;
pub mod sega32x;
pub mod sms;

verus! {

/// The territory that a game was made for.
#[derive(Clone, Copy, Debug, PartialEq, Eq, Structural)]
pub enum Region {
    JapanNTSC,
    USA,
    Europe,
    Brazil,
    Korea,
    Taiwan,
}

/// The console that a game runs on.
#[derive(Clone, Copy, Debug, PartialEq, Eq, Structural)]
pub enum System {
    SG1000,
    SG1000II,
    MarkIII,
    SMS,
    SMS2,
    GG,
    GGMS,
    MegaDrive,
    PBC,
}

/// What the console is told of a Master System game.
#[derive(Clone, Copy, Debug)]
pub struct SmsMapperConfig {
    pub system: SmsSystemType,
    pub region: Region,
    pub has_fm: bool,
    pub has_3d_glasses: bool,
    pub peripheral: u8,
}

/// The Master System cartridge as a mapper of the Mega Drive's bus,
/// where it maps nothing: its pages are the Z80's.
pub struct SmsCartridgeMapper {
    pub cart: SmsCartridge,
    pub config: SmsMapperConfig,
}

impl SmsCartridgeMapper {
    pub fn new(cart: SmsCartridge, config: SmsMapperConfig) -> (r: Self)
        ensures
            r.cart == cart,
            r.config == config,
    {
        SmsCartridgeMapper { cart, config }
    }

    pub fn init(&mut self, rom_info: &RomInfo, rom_data: &[u8], memory_map: &mut MemoryMap)
        ensures
            *final(self) == *old(self),
            *final(memory_map) == *old(memory_map),
    {
    }

    pub fn reset(&mut self, hard_reset: bool)
        ensures
            *final(self) == *old(self),
    {
    }

    /// The paging registers are the console's to save.
    pub fn save_state(&self) -> (state: Vec<u8>)
        ensures
            state@.len() == 0,
    {
        Vec::new()
    }

    pub fn load_state(&mut self, data: &[u8]) -> (ok: bool)
        ensures
            ok,
            *final(self) == *old(self),
    {
        true
    }

    pub fn get_type(&self) -> (r: MapperType)
        ensures
            r == MapperType::Custom,
    {
        MapperType::Custom
    }

    pub fn sms_config(&self) -> (r: &SmsMapperConfig)
        ensures
            *r == self.config,
    {
        &self.config
    }

    /// The pages are mapped when the paging registers are written.
    pub fn setup_z80_memory(&self, memory_map: &mut crate::mapper::sms::MemoryMap)
        ensures
            *final(memory_map) == *old(memory_map),
    {
    }

    /// The ports belong to the console's video, sound and I/O chips.
    pub fn write_io_port(&mut self, port: u8, value: u8)
        ensures
            *final(self) == *old(self),
    {
    }

    pub fn read_io_port(&self, port: u8) -> (r: u8)
        ensures
            r == 0xFF,
    {
        0xFF
    }
}

/// A mapper: the closed set of the mappers that this library knows.
pub enum Mapper {
    Realtec(RealtecMapper),
    Sf001(Sf001Mapper),
    Sf002(Sf002Mapper),
    Sf004(Sf004Mapper),
    T5740(T5740Mapper),
    Flash(FlashMapper),
    Radica(RadicaMapper),
    Custom(CustomMapper),
    Sms(SmsCartridgeMapper),
}

impl Mapper {
    /// The type of the mapper.
    pub open spec fn kind(&self) -> MapperType {
        match self {
            Mapper::Realtec(_) => MapperType::Realtec,
            Mapper::Sf001(_) => MapperType::Sf001,
            Mapper::Sf002(_) => MapperType::Sf002,
            Mapper::Sf004(_) => MapperType::Sf004,
            Mapper::T5740(_) => MapperType::T5740,
            Mapper::Flash(_) => MapperType::Flash,
            Mapper::Radica(_) => MapperType::Radica,
            Mapper::Custom(_) => MapperType::Custom,
            Mapper::Sms(_) => MapperType::Custom,
        }
    }

    /// The page map after the mapper mapped its pages.
    pub open spec fn mapped(&self, before: Seq<PageEntry>) -> Seq<PageEntry> {
        match self {
            Mapper::Realtec(m) => m.base.remapped(|p: int| m.target(p), before, CART_PAGES as int),
            Mapper::Sf001(m) => m.base.remapped(|p: int| m.target(p), before, CART_PAGES as int),
            Mapper::Sf002(m) => m.base.remapped(|p: int| m.target(p), before, CART_PAGES as int),
            Mapper::Sf004(m) => m.base.remapped(|p: int| m.target(p), before, CART_PAGES as int),
            Mapper::T5740(m) => m.base.remapped(|p: int| m.target(p), before, CART_PAGES as int),
            Mapper::Flash(m) => m.base.remapped(|p: int| BaseMapper::linear_target(p), before, CART_PAGES as int),
            Mapper::Radica(m) => m.base.remapped(|p: int| m.target(p), before, CART_PAGES as int),
            Mapper::Custom(m) => m.base.remapped(|p: int| m.target(p), before, CART_PAGES as int),
            Mapper::Sms(_) => before,
        }
    }

    /// What a read of the time window gives.
    pub open spec fn time_value(&self, address: u32) -> u32 {
        match self {
            Mapper::Sf004(m) => (m.first_page_bank * 16) as u32,
            Mapper::T5740(m) => if (address / 256) % 256 == 0x81 && address % 0x8000 < m.base.rom_data@.len() {
                m.base.rom_data@[(address % 0x8000) as int] as u32
            } else {
                0xFF
            },
            Mapper::Radica(_) => 0x03,
            _ => 0xFFFF,
        }
    }

    /// What a read of the register window gives.
    pub open spec fn register_value(&self, address: u32) -> u32 {
        match self {
            Mapper::Flash(m) => m.word_at(address),
            Mapper::Custom(m) => if (address & m.base.config.sram_mask) == m.base.config.sram_start {
                m.base.regs[0] as u32
            } else {
                0xFF
            },
            _ => 0xFF,
        }
    }

    /// The snapshot of the mapper.
    pub open spec fn snapshot(&self) -> Seq<u8> {
        match self {
            Mapper::Realtec(m) => m.snapshot(),
            Mapper::Sf001(m) => m.snapshot(),
            Mapper::Sf002(m) => m.snapshot(),
            Mapper::Sf004(m) => m.snapshot(),
            Mapper::T5740(m) => m.snapshot(),
            Mapper::Flash(m) => m.snapshot(),
            Mapper::Radica(m) => m.snapshot(),
            Mapper::Custom(m) => m.snapshot(),
            Mapper::Sms(_) => Seq::empty(),
        }
    }

    /// The least length of a snapshot that the mapper loads.
    pub open spec fn snapshot_size(&self) -> int {
        match self {
            Mapper::Realtec(_) => 8,
            Mapper::Sf001(_) => 9,
            Mapper::Sf002(_) => 6,
            Mapper::Sf004(_) => 10,
            Mapper::T5740(_) => 9,
            Mapper::Flash(_) => 27,
            Mapper::Radica(_) => 8,
            Mapper::Custom(_) => 24,
            Mapper::Sms(_) => 0,
        }
    }

    /// `after` is the mapper after a reset: the board's own reset; the
    /// Master System cartridge has nothing to reset.
    pub open spec fn resets_to(self, hard_reset: bool, after: Mapper) -> bool {
        match self {
            Mapper::Realtec(m) => after matches Mapper::Realtec(n) && m.resets_to(hard_reset, n),
            Mapper::Sf001(m) => after matches Mapper::Sf001(n) && m.resets_to(hard_reset, n),
            Mapper::Sf002(m) => after matches Mapper::Sf002(n) && m.resets_to(hard_reset, n),
            Mapper::Sf004(m) => after matches Mapper::Sf004(n) && m.resets_to(hard_reset, n),
            Mapper::T5740(m) => after matches Mapper::T5740(n) && m.resets_to(hard_reset, n),
            Mapper::Flash(m) => after matches Mapper::Flash(n) && m.resets_to(hard_reset, n),
            Mapper::Radica(m) => after matches Mapper::Radica(n) && m.resets_to(hard_reset, n),
            Mapper::Custom(m) => after matches Mapper::Custom(n) && m.resets_to(hard_reset, n),
            Mapper::Sms(_) => after == self,
        }
    }

    /// `after` and `after_map` are the mapper and the page map after a
    /// write to the time window: the board's own answer; the Master
    /// System cartridge does not listen.
    pub open spec fn time_write_to(
        self,
        address: u32,
        data: u32,
        before_map: MemoryMap,
        after: Mapper,
        after_map: MemoryMap,
    ) -> bool {
        match self {
            Mapper::Realtec(m) => after matches Mapper::Realtec(n) && m.time_write_to(address, data, before_map, n, after_map),
            Mapper::Sf001(m) => after matches Mapper::Sf001(n) && m.time_write_to(address, data, before_map, n, after_map),
            Mapper::Sf002(m) => after matches Mapper::Sf002(n) && m.time_write_to(address, data, before_map, n, after_map),
            Mapper::Sf004(m) => after matches Mapper::Sf004(n) && m.time_write_to(address, data, before_map, n, after_map),
            Mapper::T5740(m) => after matches Mapper::T5740(n) && m.time_write_to(address, data, before_map, n, after_map),
            Mapper::Flash(m) => after matches Mapper::Flash(n) && m.time_write_to(address, data, before_map, n, after_map),
            Mapper::Radica(m) => after matches Mapper::Radica(n) && m.time_write_to(address, data, before_map, n, after_map),
            Mapper::Custom(m) => after matches Mapper::Custom(n) && m.time_write_to(address, data, before_map, n, after_map),
            Mapper::Sms(_) => after == self && after_map == before_map,
        }
    }

    /// `after` and `after_map` are the mapper and the page map after a
    /// write to the register window: the board's own answer; the Master
    /// System cartridge has no registers there.
    pub open spec fn register_write_to(
        self,
        address: u32,
        data: u32,
        before_map: MemoryMap,
        after: Mapper,
        after_map: MemoryMap,
    ) -> bool {
        match self {
            Mapper::Realtec(m) => after matches Mapper::Realtec(n) && m.register_write_to(address, data, before_map, n, after_map),
            Mapper::Sf001(m) => after matches Mapper::Sf001(n) && m.register_write_to(address, data, before_map, n, after_map),
            Mapper::Sf002(m) => after matches Mapper::Sf002(n) && m.register_write_to(address, data, before_map, n, after_map),
            Mapper::Sf004(m) => after matches Mapper::Sf004(n) && m.register_write_to(address, data, before_map, n, after_map),
            Mapper::T5740(m) => after matches Mapper::T5740(n) && m.register_write_to(address, data, before_map, n, after_map),
            Mapper::Flash(m) => after matches Mapper::Flash(n) && m.register_write_to(address, data, before_map, n, after_map),
            Mapper::Radica(m) => after matches Mapper::Radica(n) && m.register_write_to(address, data, before_map, n, after_map),
            Mapper::Custom(m) => after matches Mapper::Custom(n) && m.register_write_to(address, data, before_map, n, after_map),
            Mapper::Sms(_) => after == self && after_map == before_map,
        }
    }

    /// `after` is the mapper after a snapshot was loaded, and `ok` whether
    /// it was taken: the board's own answer; the Master System cartridge
    /// takes any snapshot and keeps nothing of it.
    pub open spec fn loads_to(self, data: Seq<u8>, ok: bool, after: Mapper) -> bool {
        match self {
            Mapper::Realtec(m) => after matches Mapper::Realtec(n) && m.loads_to(data, ok, n),
            Mapper::Sf001(m) => after matches Mapper::Sf001(n) && m.loads_to(data, ok, n),
            Mapper::Sf002(m) => after matches Mapper::Sf002(n) && m.loads_to(data, ok, n),
            Mapper::Sf004(m) => after matches Mapper::Sf004(n) && m.loads_to(data, ok, n),
            Mapper::T5740(m) => after matches Mapper::T5740(n) && m.loads_to(data, ok, n),
            Mapper::Flash(m) => after matches Mapper::Flash(n) && m.loads_to(data, ok, n),
            Mapper::Radica(m) => after matches Mapper::Radica(n) && m.loads_to(data, ok, n),
            Mapper::Custom(m) => after matches Mapper::Custom(n) && m.loads_to(data, ok, n),
            Mapper::Sms(_) => ok && after == self,
        }
    }

    pub fn mapper_type(&self) -> (r: MapperType)
        ensures
            r == self.kind(),
    {
        match self {
            Mapper::Realtec(m) => m.mapper_type(),
            Mapper::Sf001(m) => m.mapper_type(),
            Mapper::Sf002(m) => m.mapper_type(),
            Mapper::Sf004(m) => m.mapper_type(),
            Mapper::T5740(m) => m.mapper_type(),
            Mapper::Flash(m) => m.mapper_type(),
            Mapper::Radica(m) => m.mapper_type(),
            Mapper::Custom(m) => m.mapper_type(),
            Mapper::Sms(m) => m.get_type(),
        }
    }

    /// Resets the mapper.
    pub fn reset(&mut self, hard_reset: bool)
        ensures
            old(self).resets_to(hard_reset, *final(self)),
            final(self).kind() == old(self).kind(),
            !hard_reset ==> *final(self) == *old(self),
    {
        match self {
            Mapper::Realtec(m) => m.reset(hard_reset),
            Mapper::Sf001(m) => m.reset(hard_reset),
            Mapper::Sf002(m) => m.reset(hard_reset),
            Mapper::Sf004(m) => m.reset(hard_reset),
            Mapper::T5740(m) => m.reset(hard_reset),
            Mapper::Flash(m) => m.reset(hard_reset),
            Mapper::Radica(m) => m.reset(hard_reset),
            Mapper::Custom(m) => m.reset(hard_reset),
            Mapper::Sms(m) => m.reset(hard_reset),
        }
    }

    pub fn update_mapping(&self, memory_map: &mut MemoryMap)
        ensures
            final(memory_map).pages@ == self.mapped(old(memory_map).pages@),
    {
        match self {
            Mapper::Realtec(m) => m.update_mapping(memory_map),
            Mapper::Sf001(m) => m.update_mapping(memory_map),
            Mapper::Sf002(m) => m.update_mapping(memory_map),
            Mapper::Sf004(m) => m.update_mapping(memory_map),
            Mapper::T5740(m) => m.update_mapping(memory_map),
            Mapper::Flash(m) => m.update_mapping(memory_map),
            Mapper::Radica(m) => m.update_mapping(memory_map),
            Mapper::Custom(m) => m.update_mapping(memory_map),
            Mapper::Sms(_) => {},
        }
    }

    /// A write to the time window. Only the T-5740 and the custom
    /// boards listen to it.
    pub fn handle_time_write(&mut self, address: u32, data: u32, memory_map: &mut MemoryMap)
        ensures
            old(self).time_write_to(address, data, *old(memory_map), *final(self), *final(memory_map)),
            final(self).kind() == old(self).kind(),
    {
        match self {
            Mapper::Realtec(m) => m.handle_time_write(address, data, memory_map),
            Mapper::Sf001(m) => m.handle_time_write(address, data, memory_map),
            Mapper::Sf002(m) => m.handle_time_write(address, data, memory_map),
            Mapper::Sf004(m) => m.handle_time_write(address, data, memory_map),
            Mapper::T5740(m) => m.handle_time_write(address, data, memory_map),
            Mapper::Flash(m) => m.handle_time_write(address, data, memory_map),
            Mapper::Radica(m) => m.handle_time_write(address, data, memory_map),
            Mapper::Custom(m) => m.handle_time_write(address, data, memory_map),
            Mapper::Sms(_) => {},
        }
    }

    pub fn handle_time_read(&self, address: u32) -> (r: u32)
        ensures
            r == self.time_value(address),
    {
        match self {
            Mapper::Realtec(m) => m.handle_time_read(address),
            Mapper::Sf001(m) => m.handle_time_read(address),
            Mapper::Sf002(m) => m.handle_time_read(address),
            Mapper::Sf004(m) => m.handle_time_read(address),
            Mapper::T5740(m) => m.handle_time_read(address),
            Mapper::Flash(m) => m.handle_time_read(address),
            Mapper::Radica(m) => m.handle_time_read(address),
            Mapper::Custom(m) => m.handle_time_read(address),
            Mapper::Sms(_) => 0xFFFF,
        }
    }

    /// A write to the register window. The T-5740 and the Master
    /// System cartridge have no registers there.
    pub fn handle_register_write(&mut self, address: u32, data: u32, memory_map: &mut MemoryMap)
        ensures
            old(self).register_write_to(address, data, *old(memory_map), *final(self), *final(memory_map)),
            final(self).kind() == old(self).kind(),
    {
        match self {
            Mapper::Realtec(m) => m.handle_register_write(address, data, memory_map),
            Mapper::Sf001(m) => m.handle_register_write(address, data, memory_map),
            Mapper::Sf002(m) => m.handle_register_write(address, data, memory_map),
            Mapper::Sf004(m) => m.handle_register_write(address, data, memory_map),
            Mapper::T5740(m) => m.handle_register_write(address, data, memory_map),
            Mapper::Flash(m) => m.handle_register_write(address, data, memory_map),
            Mapper::Radica(m) => m.handle_register_write(address, data, memory_map),
            Mapper::Custom(m) => m.handle_register_write(address, data, memory_map),
            Mapper::Sms(_) => {},
        }
    }

    pub fn handle_register_read(&self, address: u32) -> (r: u32)
        ensures
            r == self.register_value(address),
    {
        match self {
            Mapper::Realtec(m) => m.handle_register_read(address),
            Mapper::Sf001(m) => m.handle_register_read(address),
            Mapper::Sf002(m) => m.handle_register_read(address),
            Mapper::Sf004(m) => m.handle_register_read(address),
            Mapper::T5740(m) => m.handle_register_read(address),
            Mapper::Flash(m) => m.handle_register_read(address),
            Mapper::Radica(m) => m.handle_register_read(address),
            Mapper::Custom(m) => m.handle_register_read(address),
            Mapper::Sms(_) => 0xFF,
        }
    }

    pub fn save_state(&self) -> (state: Vec<u8>)
        ensures
            state@ == self.snapshot(),
    {
        match self {
            Mapper::Realtec(m) => m.save_state(),
            Mapper::Sf001(m) => m.save_state(),
            Mapper::Sf002(m) => m.save_state(),
            Mapper::Sf004(m) => m.save_state(),
            Mapper::T5740(m) => m.save_state(),
            Mapper::Flash(m) => m.save_state(),
            Mapper::Radica(m) => m.save_state(),
            Mapper::Custom(m) => m.save_state(),
            Mapper::Sms(m) => m.save_state(),
        }
    }

    /// Loads a snapshot; one shorter than the mapper's is refused and
    /// changes nothing.
    pub fn load_state(&mut self, data: &[u8]) -> (ok: bool)
        ensures
            old(self).loads_to(data@, ok, *final(self)),
            final(self).kind() == old(self).kind(),
            ok == (data@.len() >= old(self).snapshot_size()),
            !ok ==> *final(self) == *old(self),
    {
        match self {
            Mapper::Realtec(m) => m.load_state(data),
            Mapper::Sf001(m) => m.load_state(data),
            Mapper::Sf002(m) => m.load_state(data),
            Mapper::Sf004(m) => m.load_state(data),
            Mapper::T5740(m) => m.load_state(data),
            Mapper::Flash(m) => m.load_state(data),
            Mapper::Radica(m) => m.load_state(data),
            Mapper::Custom(m) => m.load_state(data),
            Mapper::Sms(m) => m.load_state(data),
        }
    }
}

/// A file is named like a Master System, Game Gear or SG-1000 ROM.
pub open spec fn sms_name(lower_name: Seq<char>) -> bool {
    ends_in(lower_name, ".sms"@) || ends_in(lower_name, ".gg"@) || ends_in(lower_name, ".sg"@)
}

/// A ROM is a Master System ROM: no larger than 4 MiB, and named like
/// one or carrying the header of one.
pub open spec fn sms_rom(lower_name: Seq<char>, rom: Seq<u8>) -> bool {
    rom.len() <= 0x40_0000 && (sms_name(lower_name) || has_sms_header(rom))
}

/// The console that a file name stands for.
pub open spec fn system_of_name(lower_name: Seq<char>) -> SmsSystemType {
    if ends_in(lower_name, ".gg"@) {
        SmsSystemType::GG
    } else if ends_in(lower_name, ".sg"@) {
        SmsSystemType::SG1000
    } else {
        SmsSystemType::SMS
    }
}

/// The region that the names of a game stand for.
pub open spec fn region_of_names(international: Seq<char>, domestic: Seq<char>) -> Region {
    if occurs_in(international, "JAPAN"@) || occurs_in(domestic, "JAPAN"@) {
        Region::JapanNTSC
    } else if occurs_in(international, "EUROPE"@) || occurs_in(domestic, "EUROPE"@) {
        Region::Europe
    } else {
        Region::USA
    }
}

/// The size that the standard mapping mirrors a ROM to: 4 MiB for
/// Sonic & Knuckles, which takes a cartridge on top, else the mirror
/// size of the ROM.
pub open spec fn standard_mask(rom: Seq<u8>, international: Seq<char>) -> u32 {
    if occurs_in(international, "SONIC & KNUCKLES"@) {
        if rom.len() < 0x40_0000 {
            0x3F_FFFFu32
        } else if rom.len() > 0xFFFF_FFFF {
            0xFFFF_FFFEu32
        } else {
            (rom.len() - 1) as u32
        }
    } else {
        crate::mapper::mapper_common::mirror_mask(rom.len() as int)
    }
}

/// The page map after the standard mapping of a ROM under a mask: each
/// page of the cartridge area shows the ROM from the page's mirrored
/// offset on, where that lies in the ROM.
pub open spec fn standard_pages(before: Seq<PageEntry>, rom_len: int, mask: u32) -> Seq<PageEntry> {
    Seq::new(
        before.len(),
        |p: int|
            if p < CART_PAGES && (((p * 0x1_0000) as u32) & mask) < rom_len {
                PageEntry::Rom(((p * 0x1_0000) as u32) & mask)
            } else {
                before[p]
            },
    )
}

/// Maps a ROM over the cartridge area under a mask.
pub fn map_standard(rom_len: usize, mask: u32, memory_map: &mut MemoryMap)
    ensures
        final(memory_map).pages@ == standard_pages(old(memory_map).pages@, rom_len as int, mask),
{
    let mut i: u32 = 0;
    while i < 0x40
        invariant
            i <= 0x40,
            forall|p: int|
                0 <= p < 256 ==> #[trigger] memory_map.pages[p] == (if p < i && (((p * 0x1_0000) as u32) & mask)
                    < rom_len {
                    PageEntry::Rom(((p * 0x1_0000) as u32) & mask)
                } else {
                    old(memory_map).pages[p]
                }),
        decreases 0x40 - i,
    {
        let offset: u32 = (i * 0x1_0000) & mask;
        if (offset as usize) < rom_len {
            memory_map.map_rom(i, offset);
        }
        i = i + 1;
    }
    assert(memory_map.pages@ =~= standard_pages(old(memory_map).pages@, rom_len as int, mask));
}

/// Sets a cartridge up: the mapper that the ROM needs, with its pages
/// mapped; none for a Master System ROM, whose pages are the Z80's, nor
/// for a ROM that the standard mapping serves, which is then mapped.
pub fn init_mapper(rom_info: &RomInfo, rom_data: &[u8], memory_map: &mut MemoryMap) -> (r: Option<Mapper>)
    ensures
        sms_rom(lowercase_of(rom_info.filename@), rom_data@) ==> r is None && *final(memory_map) == *old(memory_map),
        !sms_rom(lowercase_of(rom_info.filename@), rom_data@) ==> {
            let kind = mapper_of(*rom_info, rom_data@);
            &&& r is None <==> kind == MapperType::Standard || kind == MapperType::Unknown
            &&& r matches Some(m) ==> m.kind() == kind
            &&& r is None ==> final(memory_map).pages@ == standard_pages(
                old(memory_map).pages@,
                rom_data@.len() as int,
                standard_mask(rom_data@, rom_info.international@),
            )
        },
{
    if is_sms_rom(rom_info, rom_data) {
        return init_sms_mapper(rom_info, rom_data, memory_map);
    }
    let mapper_type = detect_mapper(rom_info, rom_data);
    match mapper_type {
        MapperType::Realtec => {
            let mut mapper = RealtecMapper::new();
            mapper.init(rom_info, rom_data, memory_map);
            Some(Mapper::Realtec(mapper))
        },
        MapperType::Sf001 => {
            let mut mapper = Sf001Mapper::new();
            mapper.init(rom_info, rom_data, memory_map);
            Some(Mapper::Sf001(mapper))
        },
        MapperType::Sf002 => {
            let mut mapper = Sf002Mapper::new();
            mapper.init(rom_info, rom_data, memory_map);
            Some(Mapper::Sf002(mapper))
        },
        MapperType::Sf004 => {
            let mut mapper = Sf004Mapper::new();
            mapper.init(rom_info, rom_data, memory_map);
            Some(Mapper::Sf004(mapper))
        },
        MapperType::T5740 => {
            let mut mapper = T5740Mapper::new();
            mapper.init(rom_info, rom_data, memory_map);
            Some(Mapper::T5740(mapper))
        },
        MapperType::Flash => {
            let mut mapper = FlashMapper::new();
            mapper.init(rom_info, rom_data, memory_map);
            Some(Mapper::Flash(mapper))
        },
        MapperType::Radica => {
            let mut mapper = RadicaMapper::new();
            mapper.init(rom_info, rom_data, memory_map);
            Some(Mapper::Radica(mapper))
        },
        MapperType::Custom => {
            let mut mapper = CustomMapper::new();
            mapper.init(rom_info, rom_data, memory_map);
            Some(Mapper::Custom(mapper))
        },
        MapperType::Standard => {
            setup_standard_mapping(rom_info, rom_data, memory_map);
            None
        },
        MapperType::Unknown => {
            setup_standard_mapping(rom_info, rom_data, memory_map);
            None
        },
        _ => {
            proof {
                lemma_detected_is_mega_drive(*rom_info, rom_data@);
            }
            None
        },
    }
}

/// The detection names Mega Drive mappers only.
pub proof fn lemma_detected_is_mega_drive(rom_info: RomInfo, rom: Seq<u8>)
    ensures
        ({
            let kind = mapper_of(rom_info, rom);
            kind == MapperType::Standard || kind == MapperType::Realtec || kind == MapperType::Sf001 || kind
                == MapperType::Sf002 || kind == MapperType::Sf004 || kind == MapperType::T5740 || kind
                == MapperType::Flash || kind == MapperType::Radica || kind == MapperType::Custom
        }),
{
    let k = crate::mapper::mapper_database::first_entry(
        rom_info.product@,
        rom_info.checksum,
        rom_info.real_checksum,
        0,
    );
    reveal_with_fuel(crate::mapper::mapper_database::first_entry, 6);
}

/// Sets a Master System cartridge up: the console, the region and the
/// slot are told from the ROM; the Mega Drive's bus gets no mapper.
pub fn init_sms_mapper(rom_info: &RomInfo, rom_data: &[u8], memory_map: &mut MemoryMap) -> (r: Option<Mapper>)
    ensures
        r is None,
        *final(memory_map) == *old(memory_map),
{
    let _system = detect_sms_system(rom_info);
    let _region = detect_sms_region(rom_info);
    let _sms_cart = SmsCartridge::new();
    let _sms_rom_info = convert_to_sms_rom_info(rom_info, rom_data);
    None
}

fn setup_standard_mapping(rom_info: &RomInfo, rom_data: &[u8], memory_map: &mut MemoryMap)
    ensures
        final(memory_map).pages@ == standard_pages(
            old(memory_map).pages@,
            rom_data@.len() as int,
            standard_mask(rom_data@, rom_info.international@),
        ),
{
    let rom_size = rom_data.len();
    let mask: u32 = if contains_text(rom_info.international.as_str(), "SONIC & KNUCKLES") {
        if rom_size < 0x40_0000 {
            0x3F_FFFF
        } else if (rom_size as u64) > 0xFFFF_FFFF {
            0xFFFF_FFFE
        } else {
            (rom_size - 1) as u32
        }
    } else {
        crate::mapper::mapper_common::rom_mirror_mask(rom_size)
    };
    map_standard(rom_size, mask, memory_map);
}

fn is_sms_rom(rom_info: &RomInfo, rom_data: &[u8]) -> (r: bool)
    ensures
        r == sms_rom(lowercase_of(rom_info.filename@), rom_data@),
{
    if rom_data.len() > 0x40_0000 {
        return false;
    }
    let filename = lowercase(rom_info.filename.as_str());
    if ends_with_text(filename.as_str(), ".sms") || ends_with_text(filename.as_str(), ".gg") || ends_with_text(
        filename.as_str(),
        ".sg",
    ) {
        return true;
    }
    detect_sms_header(rom_data)
}

fn detect_sms_system(rom_info: &RomInfo) -> (r: SmsSystemType)
    ensures
        r == system_of_name(lowercase_of(rom_info.filename@)),
{
    let filename = lowercase(rom_info.filename.as_str());
    if ends_with_text(filename.as_str(), ".gg") {
        SmsSystemType::GG
    } else if ends_with_text(filename.as_str(), ".sg") {
        SmsSystemType::SG1000
    } else {
        SmsSystemType::SMS
    }
}

fn detect_sms_region(rom_info: &RomInfo) -> (r: Region)
    ensures
        r == region_of_names(rom_info.international@, rom_info.domestic@),
{
    if contains_text(rom_info.international.as_str(), "JAPAN") || contains_text(
        rom_info.domestic.as_str(),
        "JAPAN",
    ) {
        Region::JapanNTSC
    } else if contains_text(rom_info.international.as_str(), "EUROPE") || contains_text(
        rom_info.domestic.as_str(),
        "EUROPE",
    ) {
        Region::Europe
    } else {
        Region::USA
    }
}

fn convert_to_sms_rom_info(rom_info: &RomInfo, rom_data: &[u8]) -> (r: crate::mapper::sms::RomInfo)
    ensures
        r.crc == crc32_of(rom_data@),
        !r.g_3d,
        !r.fm,
        r.peripheral == 0,
        r.mapper == 0,
        r.system == System::SMS,
        r.region == Region::USA,
{
    let crc = calculate(rom_data);
    crate::mapper::sms::RomInfo {
        crc,
        g_3d: false,
        fm: false,
        peripheral: 0,
        mapper: 0,
        system: System::SMS,
        region: Region::USA,
    }
}

/// Resets the mapper, if there is one.
pub fn reset_mapper(mapper: Option<&mut Mapper>, hard_reset: bool)
    ensures
        mapper matches Some(m) ==> m.resets_to(hard_reset, *final(m)),
{
    match mapper {
        Some(m) => m.reset(hard_reset),
        None => {},
    }
}

/// The snapshot of the mapper; without one, no bytes.
pub fn save_mapper_state(mapper: Option<&Mapper>) -> (state: Vec<u8>)
    ensures
        state@ == (match mapper {
            Some(m) => m.snapshot(),
            None => Seq::empty(),
        }),
{
    match mapper {
        Some(m) => m.save_state(),
        None => Vec::new(),
    }
}

/// Loads the snapshot of the mapper; without one, any snapshot will do.
pub fn load_mapper_state(mapper: Option<&mut Mapper>, data: &[u8]) -> (ok: bool)
    ensures
        mapper is None ==> ok,
        mapper matches Some(m) ==> m.loads_to(data@, ok, *final(m)) && ok == (data@.len() >= m.snapshot_size()),
{
    match mapper {
        Some(m) => m.load_state(data),
        None => true,
    }
}

/// What the header of a ROM says of it.
pub struct RomInfo {
    /// Product code.
    pub product: String,
    /// Checksum as the header states it.
    pub checksum: u16,
    /// Checksum as computed over the ROM.
    pub real_checksum: u16,
    /// Name of the game abroad.
    pub international: String,
    /// Name of the game at home.
    pub domestic: String,
    /// The console line of the header.
    pub console_type: String,
    /// The type line of the header.
    pub rom_type: String,
    /// Name of the file that the ROM came from.
    pub filename: String,
}

} // verus!
