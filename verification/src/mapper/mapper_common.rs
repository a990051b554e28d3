//! What the mappers share: the mapper types, the page map of the
//! cartridge area, and the base of every Mega Drive and Master System
//! mapper.

use vstd::prelude::*;
use crate::crc32::{calculate, crc32_of};
use crate::mapper::sms::{
    count_pages, initial_fcr, page_size, page_size_of, pages_of, reset_registers, MAPPER_93C46, MAPPER_CODIES,
    MAPPER_HICOM, MAPPER_KOREA_16K_V1, MAPPER_KOREA_16K_V2, MAPPER_KOREA_8K, MAPPER_MSX_16K, MAPPER_MSX_8K,
    MAPPER_MSX_8K_NEMESIS, MAPPER_MULTI_16K, MAPPER_MULTI_16K_32K_V1, MAPPER_MULTI_16K_32K_V2, MAPPER_MULTI_2X16K_V1,
    MAPPER_MULTI_2X16K_V2, MAPPER_MULTI_32K, MAPPER_MULTI_32K_16K, MAPPER_MULTI_4X8K, MAPPER_MULTI_8K, MAPPER_NONE,
    MAPPER_RAM_2K, MAPPER_RAM_8K, MAPPER_RAM_8K_EXT1, MAPPER_SEGA, MAPPER_SEGA_X, MAPPER_TEREBI,
    MAPPER_ZEMINA_16K_32K, MAPPER_ZEMINA_4X8K,
};
use crate::mapper::sms::Z80_PAGES;
use crate::mapper::Region;
use crate::text::{ends_in, ends_with_text, lowercase, lowercase_of, same_text, uppercase, uppercase_of};

verus! {

/// Pages of 64 KiB on the 68000's bus.
pub const PAGE_COUNT: usize = 256;

/// Pages of 64 KiB in the cartridge area.
pub const CART_PAGES: usize = 0x40;

/// Smallest size that a ROM is mirrored to.
pub const MIN_MIRROR_SIZE: u32 = 0x1_0000;

#[derive(Clone, Copy, Debug, PartialEq, Eq, Structural)]
pub enum MapperType {
    Standard,
    Realtec,
    Sf001,
    Sf002,
    Sf004,
    T5740,
    Flash,
    Radica,
    Custom,
    SmsSega,
    SmsCodemasters,
    SmsKorean,
    SmsMsx,
    SmsMulti,
    SmsZemina,
    SmsEeprom,
    SmsTerebi,
    SmsRam,
    Unknown,
}

impl MapperType {
    /// The name of the mapper type.
    pub open spec fn label(self) -> Seq<char> {
        match self {
            MapperType::Standard => "Standard (SEGA)"@,
            MapperType::Realtec => "Realtec"@,
            MapperType::Sf001 => "SF-001"@,
            MapperType::Sf002 => "SF-002"@,
            MapperType::Sf004 => "SF-004"@,
            MapperType::T5740 => "T-5740"@,
            MapperType::Flash => "Flash"@,
            MapperType::Radica => "Radica"@,
            MapperType::Custom => "Custom"@,
            MapperType::SmsSega => "SMS SEGA"@,
            MapperType::SmsCodemasters => "SMS Codemasters"@,
            MapperType::SmsKorean => "SMS Korean"@,
            MapperType::SmsMsx => "SMS MSX"@,
            MapperType::SmsMulti => "SMS Multi"@,
            MapperType::SmsZemina => "SMS Zemina"@,
            MapperType::SmsEeprom => "SMS EEPROM"@,
            MapperType::SmsTerebi => "SMS Terebi Oekaki"@,
            MapperType::SmsRam => "SMS RAM"@,
            MapperType::Unknown => "Unknown"@,
        }
    }

    pub fn to_string(&self) -> (r: String)
        ensures
            r@ == self.label(),
    {
        match self {
            MapperType::Standard => "Standard (SEGA)".to_owned(),
            MapperType::Realtec => "Realtec".to_owned(),
            MapperType::Sf001 => "SF-001".to_owned(),
            MapperType::Sf002 => "SF-002".to_owned(),
            MapperType::Sf004 => "SF-004".to_owned(),
            MapperType::T5740 => "T-5740".to_owned(),
            MapperType::Flash => "Flash".to_owned(),
            MapperType::Radica => "Radica".to_owned(),
            MapperType::Custom => "Custom".to_owned(),
            MapperType::SmsSega => "SMS SEGA".to_owned(),
            MapperType::SmsCodemasters => "SMS Codemasters".to_owned(),
            MapperType::SmsKorean => "SMS Korean".to_owned(),
            MapperType::SmsMsx => "SMS MSX".to_owned(),
            MapperType::SmsMulti => "SMS Multi".to_owned(),
            MapperType::SmsZemina => "SMS Zemina".to_owned(),
            MapperType::SmsEeprom => "SMS EEPROM".to_owned(),
            MapperType::SmsTerebi => "SMS Terebi Oekaki".to_owned(),
            MapperType::SmsRam => "SMS RAM".to_owned(),
            MapperType::Unknown => "Unknown".to_owned(),
        }
    }
}

#[derive(Clone, Copy, Debug, PartialEq, Eq, Structural)]
pub enum SmsSystemType {
    SG1000,
    SG1000II,
    SMS,
    SMS2,
    GG,
    GGMS,
    MarkIII,
    PBC,
}

#[derive(Clone, Copy, Debug, PartialEq, Eq, Structural)]
pub enum SmsPeripheral {
    /// A control pad.
    Pad,
    LightPhaser,
    Paddle,
    SportsPad,
    MasterTap,
    GraphicBoard,
}

impl SmsPeripheral {
    /// The peripheral with a number; numbers past the last are a pad.
    pub open spec fn of_code(value: u8) -> SmsPeripheral {
        if value == 1 {
            SmsPeripheral::LightPhaser
        } else if value == 2 {
            SmsPeripheral::Paddle
        } else if value == 3 {
            SmsPeripheral::SportsPad
        } else if value == 4 {
            SmsPeripheral::MasterTap
        } else if value == 5 {
            SmsPeripheral::GraphicBoard
        } else {
            SmsPeripheral::Pad
        }
    }

    /// The number of the peripheral.
    pub open spec fn code(self) -> u8 {
        match self {
            SmsPeripheral::Pad => 0,
            SmsPeripheral::LightPhaser => 1,
            SmsPeripheral::Paddle => 2,
            SmsPeripheral::SportsPad => 3,
            SmsPeripheral::MasterTap => 4,
            SmsPeripheral::GraphicBoard => 5,
        }
    }

    pub fn from_u8(value: u8) -> (r: Self)
        ensures
            r == Self::of_code(value),
    {
        if value == 1 {
            SmsPeripheral::LightPhaser
        } else if value == 2 {
            SmsPeripheral::Paddle
        } else if value == 3 {
            SmsPeripheral::SportsPad
        } else if value == 4 {
            SmsPeripheral::MasterTap
        } else if value == 5 {
            SmsPeripheral::GraphicBoard
        } else {
            SmsPeripheral::Pad
        }
    }

    pub fn to_u8(self) -> (r: u8)
        ensures
            r == self.code(),
    {
        match self {
            SmsPeripheral::Pad => 0,
            SmsPeripheral::LightPhaser => 1,
            SmsPeripheral::Paddle => 2,
            SmsPeripheral::SportsPad => 3,
            SmsPeripheral::MasterTap => 4,
            SmsPeripheral::GraphicBoard => 5,
        }
    }
}

/// A peripheral survives the passage through its number.
pub proof fn lemma_peripheral_round_trip(p: SmsPeripheral)
    ensures
        SmsPeripheral::of_code(p.code()) == p,
{
}

#[derive(Clone, Copy, Debug)]
pub struct SmsMapperConfig {
    pub system: SmsSystemType,
    pub peripheral: SmsPeripheral,
    pub has_fm: bool,
    pub has_3d_glasses: bool,
    pub mapper_id: u8,
    pub rom_pages: u16,
    /// Frame control registers.
    pub fcr: [u8; 4],
}

impl SmsMapperConfig {
    /// A Master System with a pad, no extras, no mapper.
    pub fn default() -> (r: Self)
        ensures
            r.system == SmsSystemType::SMS,
            r.peripheral == SmsPeripheral::Pad,
            !r.has_fm,
            !r.has_3d_glasses,
            r.mapper_id == MAPPER_NONE,
            r.rom_pages == 0,
            r.fcr@ == seq![0u8, 0u8, 0u8, 0u8],
    {
        let r = SmsMapperConfig {
            system: SmsSystemType::SMS,
            peripheral: SmsPeripheral::Pad,
            has_fm: false,
            has_3d_glasses: false,
            mapper_id: MAPPER_NONE,
            rom_pages: 0,
            fcr: [0; 4],
        };
        assert(r.fcr@ =~= seq![0u8, 0u8, 0u8, 0u8]);
        r
    }
}

#[derive(Clone, Copy, Debug)]
pub struct MapperConfig {
    pub mapper_type: MapperType,
    pub has_sram: bool,
    pub sram_start: u32,
    pub sram_end: u32,
    pub sram_mask: u32,
    pub sram_custom: bool,
    pub bankshift: bool,
    pub special_hardware: u8,
    pub sms_config: Option<SmsMapperConfig>,
    pub rom_size: usize,
    pub rom_mask: u32,
}

impl MapperConfig {
    /// The configuration of a cartridge of a mapper type with nothing
    /// special about it.
    pub open spec fn plain(mapper_type: MapperType) -> MapperConfig {
        MapperConfig {
            mapper_type,
            has_sram: false,
            sram_start: 0,
            sram_end: 0,
            sram_mask: 0,
            sram_custom: false,
            bankshift: false,
            special_hardware: 0,
            sms_config: None,
            rom_size: 0,
            rom_mask: 0,
        }
    }

    pub fn of_type(mapper_type: MapperType) -> (r: Self)
        ensures
            r == Self::plain(mapper_type),
    {
        MapperConfig {
            mapper_type,
            has_sram: false,
            sram_start: 0,
            sram_end: 0,
            sram_mask: 0,
            sram_custom: false,
            bankshift: false,
            special_hardware: 0,
            sms_config: None,
            rom_size: 0,
            rom_mask: 0,
        }
    }

    pub fn default() -> (r: Self)
        ensures
            r == Self::plain(MapperType::Standard),
    {
        MapperConfig::of_type(MapperType::Standard)
    }
}

/// What the Master System database knows of a game.
pub struct RomInfo {
    pub crc: u32,
    pub name: String,
    pub system: SmsSystemType,
    pub mapper_id: u8,
    pub peripheral: SmsPeripheral,
    pub has_fm: bool,
    pub has_3d_glasses: bool,
    pub region: Region,
}

/// What answers a page of the 68000's bus.
#[derive(Clone, Copy, Debug, PartialEq, Eq, Structural)]
pub enum PageEntry {
    Unmapped,
    /// ROM, from this offset on.
    Rom(u32),
    Sram,
    /// Hardware of the mapper's own.
    Custom,
}

/// What a mapper wants of a page.
#[derive(Clone, Copy, Debug, PartialEq, Eq, Structural)]
pub enum PageChange {
    /// Leave the page as it is.
    Keep,
    Unmap,
    /// Show ROM from this offset on, once the offset is mirrored into
    /// the ROM; an offset that stays past the end changes nothing.
    Rom(u32),
    Sram,
    Custom,
}

/// The page map of the 68000's bus.
pub struct MemoryMap {
    pub pages: [PageEntry; 256],
}

impl MemoryMap {
    pub fn new() -> (r: Self)
        ensures
            r.pages@ == Seq::new(PAGE_COUNT as nat, |i: int| PageEntry::Unmapped),
    {
        let r = MemoryMap { pages: [PageEntry::Unmapped; 256] };
        assert(r.pages@ =~= Seq::new(PAGE_COUNT as nat, |i: int| PageEntry::Unmapped));
        r
    }

    /// Sets what answers a page; pages past the last do not exist.
    pub fn set(&mut self, page: u32, entry: PageEntry)
        ensures
            final(self).pages@ == (if page < PAGE_COUNT {
                old(self).pages@.update(page as int, entry)
            } else {
                old(self).pages@
            }),
    {
        if (page as usize) < PAGE_COUNT {
            self.pages[page as usize] = entry;
        }
    }

    pub fn map_rom(&mut self, page: u32, offset: u32)
        ensures
            final(self).pages@ == (if page < PAGE_COUNT {
                old(self).pages@.update(page as int, PageEntry::Rom(offset))
            } else {
                old(self).pages@
            }),
    {
        self.set(page, PageEntry::Rom(offset));
    }

    pub fn unmap(&mut self, page: u32)
        ensures
            final(self).pages@ == (if page < PAGE_COUNT {
                old(self).pages@.update(page as int, PageEntry::Unmapped)
            } else {
                old(self).pages@
            }),
    {
        self.set(page, PageEntry::Unmapped);
    }

    pub fn map_sram(&mut self, page: u32)
        ensures
            final(self).pages@ == (if page < PAGE_COUNT {
                old(self).pages@.update(page as int, PageEntry::Sram)
            } else {
                old(self).pages@
            }),
    {
        self.set(page, PageEntry::Sram);
    }

    pub fn map_custom(&mut self, page: u32)
        ensures
            final(self).pages@ == (if page < PAGE_COUNT {
                old(self).pages@.update(page as int, PageEntry::Custom)
            } else {
                old(self).pages@
            }),
    {
        self.set(page, PageEntry::Custom);
    }
}

/// The size that a ROM of `rom_size` bytes is mirrored to: 64 KiB
/// doubled `k` times and on, until it holds the ROM or is 2 GiB.
pub open spec fn mirror_size_from(rom_size: int, k: int) -> int
    decreases 15 - k,
{
    if k >= 15 || rom_size <= MIN_MIRROR_SIZE * crate::bits::pow2(k) {
        MIN_MIRROR_SIZE * crate::bits::pow2(k)
    } else {
        mirror_size_from(rom_size, k + 1)
    }
}

/// The address mask of a ROM: its mirror size less one, or its own size
/// less one where that is more.
pub open spec fn mirror_mask(rom_size: int) -> u32 {
    let size = mirror_size_from(rom_size, 0);
    if rom_size < size {
        (size - 1) as u32
    } else if rom_size > 0xFFFF_FFFF {
        0xFFFF_FFFEu32
    } else {
        (rom_size - 1) as u32
    }
}

/// Computes the address mask of a ROM.
pub fn rom_mirror_mask(rom_size: usize) -> (mask: u32)
    ensures
        mask == mirror_mask(rom_size as int),
{
    proof {
        crate::bits::lemma_pow2_values();
    }
    let mut size: u32 = MIN_MIRROR_SIZE;
    let mut k: u32 = 0;
    while k < 15 && (rom_size as u64) > (size as u64)
        invariant
            k <= 15,
            size == MIN_MIRROR_SIZE * crate::bits::pow2(k as int),
            size <= 0x8000_0000,
            mirror_size_from(rom_size as int, k as int) == mirror_size_from(rom_size as int, 0),
        decreases 15 - k,
    {
        proof {
            crate::bits::lemma_pow2_values();
        }
        size = size * 2;
        k = k + 1;
    }
    assert(size == mirror_size_from(rom_size as int, 0));
    if (rom_size as u64) < (size as u64) {
        size - 1
    } else if (rom_size as u64) > 0xFFFF_FFFF {
        0xFFFF_FFFE
    } else {
        (rom_size - 1) as u32
    }
}

pub struct BaseMapper {
    pub config: MapperConfig,
    pub rom_data: Vec<u8>,
    pub rom_mask: u32,
    pub current_bank: u32,
    pub regs: [u8; 4],
    pub sram: Option<Vec<u8>>,
}

impl BaseMapper {
    /// What a page shows after a change.
    pub open spec fn changed(&self, change: PageChange, before: PageEntry) -> PageEntry {
        match change {
            PageChange::Keep => before,
            PageChange::Unmap => PageEntry::Unmapped,
            PageChange::Rom(raw) => if (raw & self.rom_mask) < self.rom_data@.len() {
                PageEntry::Rom(raw & self.rom_mask)
            } else {
                before
            },
            PageChange::Sram => PageEntry::Sram,
            PageChange::Custom => PageEntry::Custom,
        }
    }

    /// The page map after the first `count` pages took the changes that
    /// `targets` names.
    pub open spec fn remapped(
        &self,
        targets: spec_fn(int) -> PageChange,
        before: Seq<PageEntry>,
        count: int,
    ) -> Seq<PageEntry> {
        Seq::new(
            before.len(),
            |p: int|
                if p < count {
                    self.changed(targets(p), before[p])
                } else {
                    before[p]
                },
        )
    }

    /// The little-endian word of ROM at a mirrored address; 0xFFFF
    /// where the ROM ends before it.
    pub open spec fn rom_word(&self, address: u32) -> u32 {
        if (address & self.rom_mask) + 1 < self.rom_data@.len() {
            (self.rom_data@[(address & self.rom_mask) as int] + self.rom_data@[(address & self.rom_mask) as int + 1]
                * 256) as u32
        } else {
            0xFFFF
        }
    }

    pub fn new() -> (r: Self)
        ensures
            r.config == MapperConfig::plain(MapperType::Standard),
            r.rom_data@.len() == 0,
            r.rom_mask == 0,
            r.current_bank == 0,
            r.regs@ == seq![0u8, 0u8, 0u8, 0u8],
            r.sram is None,
    {
        let r = BaseMapper {
            config: MapperConfig::default(),
            rom_data: Vec::new(),
            rom_mask: 0,
            current_bank: 0,
            regs: [0; 4],
            sram: None,
        };
        assert(r.regs@ =~= seq![0u8, 0u8, 0u8, 0u8]);
        r
    }

    /// Takes a ROM and derives the mask that mirrors it over the
    /// cartridge area.
    pub fn setup_rom_mirroring(&mut self, rom_data: &[u8])
        ensures
            final(self).rom_data@ == rom_data@,
            final(self).rom_mask == mirror_mask(rom_data@.len() as int),
            final(self).config == (MapperConfig {
                rom_size: rom_data@.len() as usize,
                rom_mask: mirror_mask(rom_data@.len() as int),
                ..old(self).config
            }),
            final(self).current_bank == old(self).current_bank,
            final(self).regs == old(self).regs,
            final(self).sram == old(self).sram,
    {
        self.config.rom_size = rom_data.len();
        self.rom_mask = rom_mirror_mask(rom_data.len());
        self.config.rom_mask = self.rom_mask;
        self.rom_data = vstd::slice::slice_to_vec(rom_data);
    }

    /// Applies a change to a page.
    pub fn apply(&self, memory_map: &mut MemoryMap, page: usize, change: PageChange)
        requires
            page < PAGE_COUNT,
        ensures
            final(memory_map).pages@ == old(memory_map).pages@.update(
                page as int,
                self.changed(change, old(memory_map).pages[page as int]),
            ),
    {
        match change {
            PageChange::Keep => {
                assert(memory_map.pages@ =~= old(memory_map).pages@.update(
                    page as int,
                    old(memory_map).pages[page as int],
                ));
            },
            PageChange::Unmap => {
                memory_map.pages[page] = PageEntry::Unmapped;
            },
            PageChange::Rom(raw) => {
                let offset: u32 = raw & self.rom_mask;
                if (offset as usize) < self.rom_data.len() {
                    memory_map.pages[page] = PageEntry::Rom(offset);
                } else {
                    assert(memory_map.pages@ =~= old(memory_map).pages@.update(
                        page as int,
                        old(memory_map).pages[page as int],
                    ));
                }
            },
            PageChange::Sram => {
                memory_map.pages[page] = PageEntry::Sram;
            },
            PageChange::Custom => {
                memory_map.pages[page] = PageEntry::Custom;
            },
        }
    }

    /// Applies a change to each page of the cartridge area.
    pub fn apply_all(&self, memory_map: &mut MemoryMap, changes: &[PageChange; 64])
        ensures
            final(memory_map).pages@ == self.remapped(
                |p: int| changes[p],
                old(memory_map).pages@,
                CART_PAGES as int,
            ),
    {
        let mut i: usize = 0;
        while i < CART_PAGES
            invariant
                i <= CART_PAGES,
                forall|p: int|
                    0 <= p < PAGE_COUNT ==> #[trigger] memory_map.pages[p] == (if p < i {
                        self.changed(changes[p], old(memory_map).pages[p])
                    } else {
                        old(memory_map).pages[p]
                    }),
            decreases CART_PAGES - i,
        {
            self.apply(memory_map, i, changes[i]);
            i = i + 1;
        }
        assert(memory_map.pages@ =~= self.remapped(|p: int| changes[p], old(memory_map).pages@, CART_PAGES as int));
    }

    /// What the standard mapping wants of page `p`: the ROM, bank by
    /// bank.
    pub open spec fn linear_target(p: int) -> PageChange {
        PageChange::Rom((p * 0x1_0000) as u32)
    }

    /// Maps the ROM over the cartridge area, bank by bank, mirrored.
    pub fn map_linear(&self, memory_map: &mut MemoryMap)
        ensures
            final(memory_map).pages@ == self.remapped(
                |p: int| Self::linear_target(p),
                old(memory_map).pages@,
                CART_PAGES as int,
            ),
    {
        let mut changes: [PageChange; 64] = [PageChange::Keep; 64];
        let mut i: usize = 0;
        while i < CART_PAGES
            invariant
                i <= CART_PAGES,
                forall|p: int| 0 <= p < i ==> changes[p] == Self::linear_target(p),
            decreases CART_PAGES - i,
        {
            changes[i] = PageChange::Rom((i as u32) * 0x1_0000);
            i = i + 1;
        }
        self.apply_all(memory_map, &changes);
        assert(memory_map.pages@ =~= self.remapped(
            |p: int| Self::linear_target(p),
            old(memory_map).pages@,
            CART_PAGES as int,
        ));
    }

    /// The four registers and the bank, as the snapshots of the mappers
    /// end: the low byte of the bank, then the registers.
    pub open spec fn snapshot_tail(&self) -> Seq<u8> {
        seq![(self.current_bank % 256) as u8] + self.regs@
    }

    /// Appends the bank and the registers to a snapshot.
    pub fn save_tail(&self, state: &mut Vec<u8>)
        ensures
            final(state)@ == old(state)@ + self.snapshot_tail(),
    {
        state.push((self.current_bank % 256) as u8);
        state.push(self.regs[0]);
        state.push(self.regs[1]);
        state.push(self.regs[2]);
        state.push(self.regs[3]);
        assert(state@ =~= old(state)@ + self.snapshot_tail());
    }

    /// Takes the bank and the registers from the five bytes at `offset`
    /// of a snapshot.
    pub fn load_tail(&mut self, data: &[u8], offset: usize)
        requires
            offset + 5 <= data@.len(),
        ensures
            final(self).current_bank == data@[offset as int],
            final(self).regs@ == data@.subrange(offset + 1, offset + 5),
            final(self).config == old(self).config,
            final(self).rom_data == old(self).rom_data,
            final(self).rom_mask == old(self).rom_mask,
            final(self).sram == old(self).sram,
    {
        self.current_bank = data[offset] as u32;
        self.regs = [data[offset + 1], data[offset + 2], data[offset + 3], data[offset + 4]];
        assert(self.regs@ =~= data@.subrange(offset + 1, offset + 5));
    }

    /// The ROM offset that page `p` shows once bank `bank` of banks of
    /// `size` bytes is mapped from `start_addr` on, if the page is one
    /// of the bank's and the bank lies in the ROM. The bank's address
    /// is the product of number and size in 32 bits, under the mask.
    pub open spec fn bank_offset(&self, bank: u32, start_addr: u32, size: u32, p: int) -> Option<u32> {
        let rom_addr = (((bank * size) % 0x1_0000_0000) as u32) & self.rom_mask;
        let first = start_addr as int / 0x1_0000;
        let count = size as int / 0x1_0000;
        let offset = rom_addr + (p - first) * 0x1_0000;
        if first <= p < first + count && rom_addr < self.rom_data@.len() && offset < self.rom_data@.len() && offset
            <= u32::MAX {
            Some(offset as u32)
        } else {
            None
        }
    }

    /// Maps a bank of the ROM page by page from an address on. Pages
    /// past the end of the bus, and pages that would show what lies
    /// behind the ROM, stay as they are.
    pub fn map_rom_bank(&self, bank: u32, memory_map: &mut MemoryMap, start_addr: u32, size: u32)
        ensures
            final(memory_map).pages@ == Seq::new(
                PAGE_COUNT as nat,
                |p: int|
                    match self.bank_offset(bank, start_addr, size, p) {
                        Some(offset) => PageEntry::Rom(offset),
                        None => old(memory_map).pages[p],
                    },
            ),
    {
        assert(0 <= bank * size <= 0xFFFF_FFFF * 0xFFFF_FFFF) by (nonlinear_arith)
            requires
                0 <= bank <= 0xFFFF_FFFF,
                0 <= size <= 0xFFFF_FFFF,
        ;
        let product: u64 = (bank as u64) * (size as u64);
        let rom_addr: u32 = ((product % 0x1_0000_0000) as u32) & self.rom_mask;
        let first: usize = (start_addr / 0x1_0000) as usize;
        let count: usize = (size / 0x1_0000) as usize;
        let rom_len: u64 = self.rom_data.len() as u64;
        if (rom_addr as u64) < rom_len {
            let mut i: usize = 0;
            while i < count && first + i < PAGE_COUNT
                invariant
                    i <= count,
                    count <= 0xFFFF,
                    first <= 0xFFFF,
                    rom_len == self.rom_data@.len(),
                    first == start_addr as int / 0x1_0000,
                    count == size as int / 0x1_0000,
                    rom_addr == (((bank * size) % 0x1_0000_0000) as u32) & self.rom_mask,
                    rom_addr < self.rom_data@.len(),
                    forall|p: int|
                        0 <= p < PAGE_COUNT ==> #[trigger] memory_map.pages[p] == (if first <= p < first + i {
                            match self.bank_offset(bank, start_addr, size, p) {
                                Some(offset) => PageEntry::Rom(offset),
                                None => old(memory_map).pages[p],
                            }
                        } else {
                            old(memory_map).pages[p]
                        }),
                decreases count - i,
            {
                let rom_offset: u64 = (rom_addr as u64) + (i as u64) * 0x1_0000;
                if rom_offset < rom_len && rom_offset <= 0xFFFF_FFFF {
                    memory_map.pages[first + i] = PageEntry::Rom(rom_offset as u32);
                }
                i = i + 1;
            }
        }
        assert(memory_map.pages@ =~= Seq::new(
            PAGE_COUNT as nat,
            |p: int|
                match self.bank_offset(bank, start_addr, size, p) {
                    Some(offset) => PageEntry::Rom(offset),
                    None => old(memory_map).pages[p],
                },
        ));
    }

    /// Gives the cartridge save memory over a range of addresses.
    pub fn init_sram(&mut self, start_addr: u32, end_addr: u32)
        requires
            start_addr <= end_addr,
            end_addr - start_addr < u32::MAX,
        ensures
            final(self).config == (MapperConfig {
                has_sram: true,
                sram_start: start_addr,
                sram_end: end_addr,
                ..old(self).config
            }),
            final(self).sram is Some,
            final(self).sram->0@ == Seq::new((end_addr - start_addr + 1) as nat, |i: int| 0u8),
            final(self).rom_data == old(self).rom_data,
            final(self).rom_mask == old(self).rom_mask,
            final(self).current_bank == old(self).current_bank,
            final(self).regs == old(self).regs,
    {
        self.config.has_sram = true;
        self.config.sram_start = start_addr;
        self.config.sram_end = end_addr;
        let sram_size: usize = (end_addr - start_addr + 1) as usize;
        let sram: Vec<u8> = vec![0u8; sram_size];
        assert(sram@ =~= Seq::new((end_addr - start_addr + 1) as nat, |i: int| 0u8));
        self.sram = Some(sram);
    }
}

/// The read map of the Z80 after the 1 KiB pages `[first, first + count)`
/// were mapped to the ROM from `base` on, the page index taken modulo
/// `wrap`; a page that would start past the ROM stays.
pub open spec fn mapped_checked(
    before: Seq<usize>,
    first: int,
    count: int,
    base: int,
    wrap: int,
    rom_len: int,
) -> Seq<usize> {
    Seq::new(
        before.len(),
        |i: int|
            if first <= i < first + count && base + (i % wrap) * 0x400 < rom_len {
                (base + (i % wrap) * 0x400) as usize
            } else {
                before[i]
            },
    )
}

/// The base of a Master System mapper: the ROM, its pages and the
/// paging registers.
pub struct SmsBaseMapper {
    pub config: MapperConfig,
    pub sms_config: SmsMapperConfig,
    pub rom_data: Vec<u8>,
    pub rom_pages: u16,
    /// Frame control registers.
    pub fcr: [u8; 4],
    pub ram: Option<Vec<u8>>,
}

impl SmsBaseMapper {
    /// The ROM page that a value written to a paging register selects.
    pub open spec fn selected_page(&self, data: u8) -> int {
        if self.rom_pages == 0 {
            0
        } else {
            data as int % self.rom_pages as int
        }
    }

    /// The page that a 16 KiB register selects: on the Sega mapper,
    /// with the low two bits of the control register set, the page
    /// moves up by eight pages for each step below four.
    pub open spec fn selected_page_16k(&self, data: u8) -> int {
        let page = self.selected_page(data);
        if self.sms_config.mapper_id == MAPPER_SEGA && self.fcr[0] % 4 != 0 && self.rom_pages != 0 {
            (page + (4 - self.fcr[0] % 4) * 8) % (self.rom_pages as int)
        } else {
            page
        }
    }

    pub fn new() -> (r: Self)
        ensures
            r.config == MapperConfig::plain(MapperType::Standard),
            r.sms_config.mapper_id == MAPPER_NONE,
            r.sms_config.rom_pages == 0,
            r.rom_data@.len() == 0,
            r.rom_pages == 0,
            r.fcr@ == seq![0u8, 0u8, 0u8, 0u8],
            r.ram is None,
    {
        let r = SmsBaseMapper {
            config: MapperConfig::default(),
            sms_config: SmsMapperConfig::default(),
            rom_data: Vec::new(),
            rom_pages: 0,
            fcr: [0; 4],
            ram: None,
        };
        assert(r.fcr@ =~= seq![0u8, 0u8, 0u8, 0u8]);
        r
    }

    /// Takes a ROM for a mapper: counts the pages and resets the paging
    /// registers.
    pub fn setup_rom(&mut self, rom_data: &[u8], mapper_id: u8)
        ensures
            final(self).rom_data@ == rom_data@,
            final(self).config == (MapperConfig { rom_size: rom_data@.len() as usize, ..old(self).config }),
            final(self).rom_pages == pages_of(rom_data@.len() as int, page_size_of(mapper_id)),
            final(self).fcr@ == initial_fcr(mapper_id),
            final(self).sms_config == (SmsMapperConfig {
                mapper_id,
                rom_pages: final(self).rom_pages,
                fcr: final(self).fcr,
                ..old(self).sms_config
            }),
            final(self).ram == old(self).ram,
    {
        self.rom_data = vstd::slice::slice_to_vec(rom_data);
        self.config.rom_size = rom_data.len();
        self.sms_config.mapper_id = mapper_id;
        self.rom_pages = self.calculate_rom_pages(rom_data.len(), mapper_id);
        self.sms_config.rom_pages = self.rom_pages;
        self.reset_fcr();
    }

    fn calculate_rom_pages(&self, rom_size: usize, mapper_id: u8) -> (r: u16)
        ensures
            r == pages_of(rom_size as int, page_size_of(mapper_id)),
    {
        count_pages(rom_size, page_size(mapper_id))
    }

    fn reset_fcr(&mut self)
        ensures
            final(self).fcr@ == initial_fcr(old(self).sms_config.mapper_id),
            final(self).sms_config == (SmsMapperConfig { fcr: final(self).fcr, ..old(self).sms_config }),
            final(self).config == old(self).config,
            final(self).rom_data == old(self).rom_data,
            final(self).rom_pages == old(self).rom_pages,
            final(self).ram == old(self).ram,
    {
        self.fcr = reset_registers(self.sms_config.mapper_id);
        self.sms_config.fcr = self.fcr;
    }

    /// Gives the cartridge RAM.
    pub fn init_ram(&mut self, ram_size: usize)
        ensures
            final(self).ram is Some,
            final(self).ram->0@ == Seq::new(ram_size as nat, |i: int| 0u8),
            final(self).config == old(self).config,
            final(self).sms_config == old(self).sms_config,
            final(self).rom_data == old(self).rom_data,
            final(self).rom_pages == old(self).rom_pages,
            final(self).fcr == old(self).fcr,
    {
        let ram: Vec<u8> = vec![0u8; ram_size];
        assert(ram@ =~= Seq::new(ram_size as nat, |i: int| 0u8));
        self.ram = Some(ram);
    }

    fn select_page(&self, data: u8) -> (r: usize)
        ensures
            r == self.selected_page(data),
            r <= 255,
    {
        if self.rom_pages == 0 {
            0
        } else {
            let r: usize = (data as usize) % (self.rom_pages as usize);
            assert(r <= data) by (nonlinear_arith)
                requires
                    r == (data as usize) % (self.rom_pages as usize),
                    self.rom_pages > 0,
            ;
            r
        }
    }

    fn map_checked(&self, z80_memory: &mut crate::mapper::sms::MemoryMap, first: usize, count: usize, base: usize, wrap: usize)
        requires
            first + count <= Z80_PAGES,
            base <= 0x4000_0000,
            0 < wrap <= Z80_PAGES,
        ensures
            final(z80_memory).read_map@ == mapped_checked(
                old(z80_memory).read_map@,
                first as int,
                count as int,
                base as int,
                wrap as int,
                self.rom_data@.len() as int,
            ),
    {
        let mut i: usize = first;
        while i < first + count
            invariant
                first <= i <= first + count,
                first + count <= Z80_PAGES,
                base <= 0x4000_0000,
                0 < wrap <= Z80_PAGES,
                forall|j: int|
                    0 <= j < Z80_PAGES ==> #[trigger] z80_memory.read_map[j] == (if first <= j < i && base + (j % (
                    wrap as int)) * 0x400 < self.rom_data@.len() {
                        (base + (j % (wrap as int)) * 0x400) as usize
                    } else {
                        old(z80_memory).read_map[j]
                    }),
            decreases first + count - i,
        {
            let addr: usize = base + (i % wrap) * 0x400;
            if addr < self.rom_data.len() {
                z80_memory.read_map[i] = addr;
            }
            i = i + 1;
        }
        assert(z80_memory.read_map@ =~= mapped_checked(
            old(z80_memory).read_map@,
            first as int,
            count as int,
            base as int,
            wrap as int,
            self.rom_data@.len() as int,
        ));
    }

    /// A write to an 8 KiB paging register: the register keeps the
    /// value, and eight pages read from the selected 8 KiB of ROM as
    /// far as the ROM goes.
    pub fn mapper_8k_write(&mut self, offset: usize, data: u8, z80_memory: &mut crate::mapper::sms::MemoryMap)
        ensures
            final(self).fcr@ == old(self).fcr@.update((offset % 4) as int, data),
            final(self).config == old(self).config,
            final(self).sms_config == old(self).sms_config,
            final(self).rom_data == old(self).rom_data,
            final(self).rom_pages == old(self).rom_pages,
            final(self).ram == old(self).ram,
            final(z80_memory).read_map@ == mapped_checked(
                old(z80_memory).read_map@,
                crate::mapper::sms::common::first_page_8k((offset % 4) as int),
                8,
                old(self).selected_page(data) * 0x2000,
                8,
                old(self).rom_data@.len() as int,
            ),
    {
        let page: usize = self.select_page(data) * 0x2000;
        let register: usize = offset % 4;
        self.fcr[register] = data;
        let first: usize = if register == 0 {
            0x20
        } else if register == 1 {
            0x28
        } else if register == 2 {
            0x10
        } else {
            0x18
        };
        self.map_checked(z80_memory, first, 8, page, 8);
    }

    /// A write to a 16 KiB paging register. Register 0 is the control
    /// register and maps nothing; registers 1 to 3 map 0x0400, 0x4000
    /// and 0x8000. Registers past the fourth do not exist.
    pub fn mapper_16k_write(&mut self, offset: usize, data: u8, z80_memory: &mut crate::mapper::sms::MemoryMap)
        ensures
            final(self).config == old(self).config,
            final(self).sms_config == old(self).sms_config,
            final(self).rom_data == old(self).rom_data,
            final(self).rom_pages == old(self).rom_pages,
            final(self).ram == old(self).ram,
            offset >= 4 ==> final(self).fcr == old(self).fcr,
            offset < 4 ==> final(self).fcr@ == old(self).fcr@.update(offset as int, data),
            offset == 0 || offset >= 4 ==> *final(z80_memory) == *old(z80_memory),
            1 <= offset <= 3 ==> final(z80_memory).read_map@ == mapped_checked(
                old(z80_memory).read_map@,
                if offset == 1 {
                    1int
                } else if offset == 2 {
                    0x10int
                } else {
                    0x20int
                },
                if offset == 1 {
                    15int
                } else {
                    16int
                },
                old(self).selected_page_16k(data) * 0x4000,
                16,
                old(self).rom_data@.len() as int,
            ),
    {
        if offset >= 4 {
            return;
        }
        let mut page: usize = self.select_page(data);
        if self.sms_config.mapper_id == MAPPER_SEGA && self.fcr[0] % 4 != 0 && self.rom_pages != 0 {
            page = (page + ((4 - (self.fcr[0] % 4)) as usize) * 8) % (self.rom_pages as usize);
        }
        self.fcr[offset] = data;
        if offset == 1 {
            self.map_checked(z80_memory, 1, 15, page * 0x4000, 16);
        } else if offset == 2 {
            self.map_checked(z80_memory, 0x10, 16, page * 0x4000, 16);
        } else if offset == 3 {
            self.map_checked(z80_memory, 0x20, 16, page * 0x4000, 16);
        }
    }

    /// A write to the 32 KiB paging register: the first 32 KiB read from
    /// the selected 32 KiB of ROM, and the 16 KiB above from its first
    /// half, as far as the ROM goes.
    pub fn mapper_32k_write(&mut self, data: u8, z80_memory: &mut crate::mapper::sms::MemoryMap)
        ensures
            final(self).fcr@ == old(self).fcr@.update(0, data),
            final(self).config == old(self).config,
            final(self).sms_config == old(self).sms_config,
            final(self).rom_data == old(self).rom_data,
            final(self).rom_pages == old(self).rom_pages,
            final(self).ram == old(self).ram,
            final(z80_memory).read_map@ == mapped_checked(
                mapped_checked(
                    old(z80_memory).read_map@,
                    0,
                    0x20,
                    old(self).selected_page(data) * 0x8000,
                    64,
                    old(self).rom_data@.len() as int,
                ),
                0x20,
                16,
                old(self).selected_page(data) * 0x8000,
                16,
                old(self).rom_data@.len() as int,
            ),
    {
        let page: usize = self.select_page(data) * 0x8000;
        self.fcr[0] = data;
        self.map_checked(z80_memory, 0, 0x20, page, 64);
        self.map_checked(z80_memory, 0x20, 16, page, 16);
    }
}

/// "TMR SEGA", the signature of a Master System ROM header.
pub open spec fn tmr_sega() -> Seq<u8> {
    seq![0x54u8, 0x4Du8, 0x52u8, 0x20u8, 0x53u8, 0x45u8, 0x47u8, 0x41u8]
}

/// Where the header of a Master System ROM of a size lies.
pub open spec fn sms_header_pos(rom_len: int) -> int {
    if rom_len > 0x8000 {
        0x7FF0
    } else {
        0x7DF0
    }
}

/// The ROM carries the signature of a Master System header.
pub open spec fn has_sms_header(rom: Seq<u8>) -> bool {
    rom.len() > 0x7FF0 && crate::chips::detect::bytes_at(rom, sms_header_pos(rom.len() as int), tmr_sega())
}

/// Whether a ROM carries the signature of a Master System header.
pub fn detect_sms_header(rom_data: &[u8]) -> (r: bool)
    ensures
        r == has_sms_header(rom_data@),
{
    if rom_data.len() > 0x7FF0 {
        let header_pos: usize = if rom_data.len() > 0x8000 {
            0x7FF0
        } else {
            0x7DF0
        };
        let signature: [u8; 8] = [0x54, 0x4D, 0x52, 0x20, 0x53, 0x45, 0x47, 0x41];
        assert(signature@ =~= tmr_sega());
        crate::chips::detect::matches_at(rom_data, header_pos, signature.as_slice())
    } else {
        false
    }
}

/// A ROM is a Master System or Game Gear ROM: no larger than 4 MiB, and
/// named like one or carrying the header of one.
pub open spec fn sms_rom(lower_name: Seq<char>, rom: Seq<u8>) -> bool {
    rom.len() <= 0x40_0000 && (ends_in(lower_name, ".sms"@) || ends_in(lower_name, ".gg"@) || ends_in(
        lower_name,
        ".sg"@,
    ) || ends_in(lower_name, ".sc"@) || has_sms_header(rom))
}

/// The console that a file name stands for.
pub open spec fn system_of_name(lower_name: Seq<char>) -> SmsSystemType {
    if ends_in(lower_name, ".gg"@) {
        SmsSystemType::GG
    } else if ends_in(lower_name, ".sg"@) {
        SmsSystemType::SG1000
    } else if ends_in(lower_name, ".sc"@) {
        SmsSystemType::SG1000II
    } else {
        SmsSystemType::SMS
    }
}

/// The region that a name in capitals stands for; USA where it stands
/// for none.
pub open spec fn region_of_name(upper: Seq<char>) -> Region {
    if upper == "JAPAN"@ || upper == "JP"@ {
        Region::JapanNTSC
    } else if upper == "USA"@ || upper == "US"@ {
        Region::USA
    } else if upper == "EUROPE"@ || upper == "EU"@ || upper == "PAL"@ {
        Region::Europe
    } else if upper == "BRAZIL"@ || upper == "BR"@ {
        Region::Brazil
    } else if upper == "KOREA"@ || upper == "KR"@ {
        Region::Korea
    } else if upper == "ASIA"@ || upper == "TW"@ {
        Region::Taiwan
    } else {
        Region::USA
    }
}

/// Whether a ROM is a Master System or Game Gear ROM.
pub fn is_sms_rom(rom_info: &crate::mapper::RomInfo, rom_data: &[u8]) -> (r: bool)
    ensures
        r == sms_rom(lowercase_of(rom_info.filename@), rom_data@),
{
    if rom_data.len() > 0x40_0000 {
        return false;
    }
    let filename = lowercase(rom_info.filename.as_str());
    if ends_with_text(filename.as_str(), ".sms") || ends_with_text(filename.as_str(), ".gg") || ends_with_text(
        filename.as_str(),
        ".sg",
    ) || ends_with_text(filename.as_str(), ".sc") {
        return true;
    }
    detect_sms_header(rom_data)
}

/// The mapper that the database has for a CRC. The database of this
/// library is the cartridge slot's; here none is known.
pub fn detect_sms_mapper(crc: u32) -> (r: Option<u8>)
    ensures
        r is None,
{
    None
}

/// The CRC-32 of a ROM.
pub fn calculate_crc(rom_data: &[u8]) -> (r: u32)
    ensures
        r == crc32_of(rom_data@),
{
    calculate(rom_data)
}

/// The region that a name stands for, in any case.
pub fn parse_region(region_str: &str) -> (r: Region)
    ensures
        r == region_of_name(uppercase_of(region_str@)),
{
    let upper = uppercase(region_str);
    let u = upper.as_str();
    if same_text(u, "JAPAN") || same_text(u, "JP") {
        Region::JapanNTSC
    } else if same_text(u, "USA") || same_text(u, "US") {
        Region::USA
    } else if same_text(u, "EUROPE") || same_text(u, "EU") || same_text(u, "PAL") {
        Region::Europe
    } else if same_text(u, "BRAZIL") || same_text(u, "BR") {
        Region::Brazil
    } else if same_text(u, "KOREA") || same_text(u, "KR") {
        Region::Korea
    } else if same_text(u, "ASIA") || same_text(u, "TW") {
        Region::Taiwan
    } else {
        Region::USA
    }
}

/// The console that a file name stands for.
pub fn detect_sms_system(filename: &str) -> (r: SmsSystemType)
    ensures
        r == system_of_name(lowercase_of(filename@)),
{
    let lower = lowercase(filename);
    let name = lower.as_str();
    if ends_with_text(name, ".gg") {
        SmsSystemType::GG
    } else if ends_with_text(name, ".sg") {
        SmsSystemType::SG1000
    } else if ends_with_text(name, ".sc") {
        SmsSystemType::SG1000II
    } else {
        SmsSystemType::SMS
    }
}

/// The mapper family of a Master System mapper number.
pub open spec fn family_of(mapper_id: u8) -> MapperType {
    if mapper_id == MAPPER_SEGA || mapper_id == MAPPER_SEGA_X {
        MapperType::SmsSega
    } else if mapper_id == MAPPER_CODIES {
        MapperType::SmsCodemasters
    } else if mapper_id == MAPPER_KOREA_8K || mapper_id == MAPPER_KOREA_16K_V1 || mapper_id == MAPPER_KOREA_16K_V2 {
        MapperType::SmsKorean
    } else if mapper_id == MAPPER_MSX_8K || mapper_id == MAPPER_MSX_8K_NEMESIS || mapper_id == MAPPER_MSX_16K {
        MapperType::SmsMsx
    } else if mapper_id == MAPPER_MULTI_8K || mapper_id == MAPPER_MULTI_4X8K || mapper_id == MAPPER_MULTI_16K
        || mapper_id == MAPPER_MULTI_2X16K_V1 || mapper_id == MAPPER_MULTI_2X16K_V2 || mapper_id
        == MAPPER_MULTI_16K_32K_V1 || mapper_id == MAPPER_MULTI_16K_32K_V2 || mapper_id == MAPPER_MULTI_32K
        || mapper_id == MAPPER_MULTI_32K_16K || mapper_id == MAPPER_HICOM {
        MapperType::SmsMulti
    } else if mapper_id == MAPPER_ZEMINA_4X8K || mapper_id == MAPPER_ZEMINA_16K_32K {
        MapperType::SmsZemina
    } else if mapper_id == MAPPER_93C46 {
        MapperType::SmsEeprom
    } else if mapper_id == MAPPER_TEREBI {
        MapperType::SmsTerebi
    } else if mapper_id == MAPPER_RAM_2K || mapper_id == MAPPER_RAM_8K || mapper_id == MAPPER_RAM_8K_EXT1 {
        MapperType::SmsRam
    } else {
        MapperType::Unknown
    }
}

pub fn create_standard_mapper() -> (r: BaseMapper)
    ensures
        r.config == MapperConfig::plain(MapperType::Standard),
        r.rom_data@.len() == 0,
        r.rom_mask == 0,
        r.sram is None,
{
    BaseMapper::new()
}

pub fn create_sms_mapper(mapper_id: u8) -> (r: SmsBaseMapper)
    ensures
        r.sms_config.mapper_id == mapper_id,
        r.rom_data@.len() == 0,
        r.rom_pages == 0,
        r.ram is None,
{
    let mut mapper = SmsBaseMapper::new();
    mapper.sms_config.mapper_id = mapper_id;
    mapper
}

/// Whether a number is a Master System mapper's.
pub fn is_sms_mapper_id(mapper_id: u8) -> (r: bool)
    ensures
        r == (mapper_id <= MAPPER_HICOM),
{
    mapper_id <= MAPPER_HICOM
}

/// The mapper family of a Master System mapper number.
pub fn mapper_id_to_type(mapper_id: u8) -> (r: MapperType)
    ensures
        r == family_of(mapper_id),
{
    if mapper_id == MAPPER_SEGA || mapper_id == MAPPER_SEGA_X {
        MapperType::SmsSega
    } else if mapper_id == MAPPER_CODIES {
        MapperType::SmsCodemasters
    } else if mapper_id == MAPPER_KOREA_8K || mapper_id == MAPPER_KOREA_16K_V1 || mapper_id == MAPPER_KOREA_16K_V2 {
        MapperType::SmsKorean
    } else if mapper_id == MAPPER_MSX_8K || mapper_id == MAPPER_MSX_8K_NEMESIS || mapper_id == MAPPER_MSX_16K {
        MapperType::SmsMsx
    } else if mapper_id == MAPPER_MULTI_8K || mapper_id == MAPPER_MULTI_4X8K || mapper_id == MAPPER_MULTI_16K
        || mapper_id == MAPPER_MULTI_2X16K_V1 || mapper_id == MAPPER_MULTI_2X16K_V2 || mapper_id
        == MAPPER_MULTI_16K_32K_V1 || mapper_id == MAPPER_MULTI_16K_32K_V2 || mapper_id == MAPPER_MULTI_32K
        || mapper_id == MAPPER_MULTI_32K_16K || mapper_id == MAPPER_HICOM {
        MapperType::SmsMulti
    } else if mapper_id == MAPPER_ZEMINA_4X8K || mapper_id == MAPPER_ZEMINA_16K_32K {
        MapperType::SmsZemina
    } else if mapper_id == MAPPER_93C46 {
        MapperType::SmsEeprom
    } else if mapper_id == MAPPER_TEREBI {
        MapperType::SmsTerebi
    } else if mapper_id == MAPPER_RAM_2K || mapper_id == MAPPER_RAM_8K || mapper_id == MAPPER_RAM_8K_EXT1 {
        MapperType::SmsRam
    } else {
        MapperType::Unknown
    }
}

} // verus!
