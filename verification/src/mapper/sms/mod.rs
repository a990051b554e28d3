//! Master System and Game Gear cartridges: the mapper numbers, the
//! paging registers, and the cartridge slot.

use vstd::prelude::*;
use crate::crc32::{calculate, crc32_of};
use crate::mapper::{Region, System};
use crate::memory::cart::Cartridge;

pub mod codemasters;
pub mod common;
pub mod eeprom;
pub mod korean;
pub mod msx;
pub mod multi;
pub mod sega;

verus! {

pub const MAPPER_NONE: u8 = 0x00;

pub const MAPPER_TEREBI: u8 = 0x01;

pub const MAPPER_RAM_2K: u8 = 0x02;

pub const MAPPER_RAM_8K: u8 = 0x03;

pub const MAPPER_RAM_8K_EXT1: u8 = 0x04;

pub const MAPPER_SEGA: u8 = 0x10;

pub const MAPPER_SEGA_X: u8 = 0x11;

pub const MAPPER_93C46: u8 = 0x12;

pub const MAPPER_CODIES: u8 = 0x13;

pub const MAPPER_MULTI_16K: u8 = 0x14;

pub const MAPPER_KOREA_16K_V1: u8 = 0x15;

pub const MAPPER_KOREA_16K_V2: u8 = 0x16;

pub const MAPPER_MULTI_2X16K_V1: u8 = 0x17;

pub const MAPPER_MULTI_2X16K_V2: u8 = 0x18;

pub const MAPPER_MULTI_16K_32K_V1: u8 = 0x19;

pub const MAPPER_MULTI_16K_32K_V2: u8 = 0x1A;

pub const MAPPER_ZEMINA_16K_32K: u8 = 0x1B;

pub const MAPPER_HWASUNG: u8 = 0x1C;

pub const MAPPER_MSX_16K: u8 = 0x1D;

pub const MAPPER_KOREA_8K: u8 = 0x20;

pub const MAPPER_MSX_8K: u8 = 0x21;

pub const MAPPER_MSX_8K_NEMESIS: u8 = 0x22;

pub const MAPPER_MULTI_8K: u8 = 0x23;

pub const MAPPER_MULTI_4X8K: u8 = 0x24;

pub const MAPPER_ZEMINA_4X8K: u8 = 0x25;

pub const MAPPER_MULTI_32K: u8 = 0x40;

pub const MAPPER_MULTI_32K_16K: u8 = 0x41;

pub const MAPPER_HICOM: u8 = 0x42;

/// Pages of 1 KiB in the Z80's address space.
pub const Z80_PAGES: usize = 64;

/// What the database knows of a game.
#[derive(Clone, Copy, Debug)]
pub struct RomInfo {
    pub crc: u32,
    /// The game uses the 3-D glasses.
    pub g_3d: bool,
    /// The game uses the FM sound unit.
    pub fm: bool,
    pub peripheral: u8,
    pub mapper: u8,
    pub system: System,
    pub region: Region,
}

/// The paging hardware of a ROM.
#[derive(Clone, Copy, Debug)]
pub struct RomHardware {
    /// Frame control registers.
    pub fcr: [u8; 4],
    pub mapper: u8,
    /// Number of pages of the mapper's page size.
    pub pages: u16,
}

/// The cartridge slot as the mappers see it.
#[derive(Clone, Copy, Debug)]
pub struct MemorySlot {
    pub fcr: [u8; 4],
    pub mapper: u8,
    pub pages: u16,
}

/// Where each 1 KiB page of the Z80's address space reads from: an
/// offset into the ROM in the slot.
pub struct MemoryMap {
    pub read_map: [usize; 64],
}

impl MemoryMap {
    pub fn new() -> (r: Self)
        ensures
            forall|i: int| 0 <= i < Z80_PAGES ==> r.read_map[i] == 0,
    {
        MemoryMap { read_map: [0; 64] }
    }
}

/// The page size of a mapper: 1 KiB without paging hardware, 8 KiB and
/// 32 KiB for the mappers numbered from 0x20 and 0x40, 16 KiB for the
/// rest.
pub open spec fn page_size_of(mapper: u8) -> int {
    if mapper < MAPPER_SEGA {
        0x400
    } else if (mapper / 0x20) % 2 == 1 {
        0x2000
    } else if (mapper / 0x40) % 2 == 1 {
        0x8000
    } else {
        0x4000
    }
}

/// The number of pages of a size that hold `rom_size` bytes, as the
/// sixteen bits of a page register.
pub open spec fn pages_of(rom_size: int, page_size: int) -> u16
    recommends
        page_size > 0,
{
    (((rom_size + page_size - 1) / page_size) % 0x1_0000) as u16
}

/// The paging registers of a mapper after a reset.
pub open spec fn initial_fcr(mapper: u8) -> Seq<u8> {
    if mapper == MAPPER_SEGA || mapper == MAPPER_SEGA_X {
        seq![0u8, 0u8, 1u8, 2u8]
    } else if mapper == MAPPER_ZEMINA_16K_32K {
        seq![0u8, 0u8, 1u8, 1u8]
    } else if mapper == MAPPER_ZEMINA_4X8K {
        seq![3u8, 2u8, 1u8, 0u8]
    } else if mapper == MAPPER_KOREA_8K || mapper == MAPPER_MSX_8K || mapper == MAPPER_MSX_8K_NEMESIS || mapper
        == MAPPER_MSX_16K || mapper == MAPPER_MULTI_4X8K || mapper == MAPPER_MULTI_8K {
        seq![0u8, 0u8, 0u8, 0u8]
    } else {
        seq![0u8, 0u8, 1u8, 0u8]
    }
}

/// The bytes of on-cartridge RAM that a mapper brings.
pub open spec fn ram_size_of(mapper: u8) -> int {
    if mapper == MAPPER_RAM_8K || mapper == MAPPER_RAM_8K_EXT1 {
        0x2000
    } else if mapper == MAPPER_RAM_2K {
        0x800
    } else {
        0
    }
}

/// The first game at or after `from` of a list with a CRC, or the
/// length of the list.
pub open spec fn first_game(games: Seq<RomInfo>, crc: u32, from: int) -> int
    decreases games.len() - from,
{
    if from >= games.len() {
        games.len() as int
    } else if games[from].crc == crc {
        from
    } else {
        first_game(games, crc, from + 1)
    }
}

/// The two games that every list starts with.
pub open spec fn built_in_games() -> Seq<RomInfo> {
    seq![
        RomInfo {
            crc: 0x3275_9751,
            g_3d: false,
            fm: true,
            peripheral: 0,
            mapper: MAPPER_SEGA,
            system: System::SMS,
            region: Region::JapanNTSC,
        },
        RomInfo {
            crc: 0x2982_2980,
            g_3d: false,
            fm: false,
            peripheral: 0,
            mapper: MAPPER_CODIES,
            system: System::SMS2,
            region: Region::Europe,
        },
    ]
}

/// Computes the number of pages of a size that hold `rom_size` bytes.
pub fn count_pages(rom_size: usize, page_size: usize) -> (r: u16)
    requires
        page_size > 0,
    ensures
        r == pages_of(rom_size as int, page_size as int),
{
    let whole: usize = rom_size / page_size;
    let rest: usize = rom_size % page_size;
    assert(rom_size == whole * page_size + rest) by (nonlinear_arith)
        requires
            whole == rom_size / page_size,
            rest == rom_size % page_size,
            page_size > 0,
    ;
    proof {
        assert((whole + 1) * page_size == whole * page_size + page_size) by (nonlinear_arith);
        if rest > 0 {
            vstd::arithmetic::div_mod::lemma_fundamental_div_mod_converse(
                rom_size + page_size - 1,
                page_size as int,
                whole + 1,
                rest - 1,
            );
        } else {
            vstd::arithmetic::div_mod::lemma_fundamental_div_mod_converse(
                rom_size + page_size - 1,
                page_size as int,
                whole as int,
                page_size - 1,
            );
        }
    }
    let pages: u128 = (whole as u128) + (if rest > 0 { 1u128 } else { 0u128 });
    (pages % 0x1_0000) as u16
}

/// The page size of a mapper.
pub fn page_size(mapper: u8) -> (r: usize)
    ensures
        r == page_size_of(mapper),
        r > 0,
{
    if mapper < MAPPER_SEGA {
        0x400
    } else if (mapper / 0x20) % 2 == 1 {
        0x2000
    } else if (mapper / 0x40) % 2 == 1 {
        0x8000
    } else {
        0x4000
    }
}

/// The paging registers of a mapper after a reset.
pub fn reset_registers(mapper: u8) -> (r: [u8; 4])
    ensures
        r@ == initial_fcr(mapper),
{
    let r: [u8; 4] = if mapper == MAPPER_SEGA || mapper == MAPPER_SEGA_X {
        [0, 0, 1, 2]
    } else if mapper == MAPPER_ZEMINA_16K_32K {
        [0, 0, 1, 1]
    } else if mapper == MAPPER_ZEMINA_4X8K {
        [3, 2, 1, 0]
    } else if mapper == MAPPER_KOREA_8K || mapper == MAPPER_MSX_8K || mapper == MAPPER_MSX_8K_NEMESIS || mapper
        == MAPPER_MSX_16K || mapper == MAPPER_MULTI_4X8K || mapper == MAPPER_MULTI_8K {
        [0, 0, 0, 0]
    } else {
        [0, 0, 1, 0]
    };
    assert(r@ =~= initial_fcr(mapper));
    r
}

pub struct SmsCartridge {
    pub rom_hw: RomHardware,
    pub bios_hw: RomHardware,
    pub slot: MemorySlot,
    pub game_list: Vec<RomInfo>,
}

impl SmsCartridge {
    /// The mapper of a ROM of a CRC and a size: the database's, or by
    /// size the Sega mapper past 48 KiB and none below.
    pub open spec fn mapper_for(&self, crc: u32, rom_size: int) -> u8 {
        if first_game(self.game_list@, crc, 0) < self.game_list@.len() {
            self.game_list@[first_game(self.game_list@, crc, 0)].mapper
        } else if rom_size > 0xC000 {
            MAPPER_SEGA
        } else {
            MAPPER_NONE
        }
    }

    /// The region of a ROM of a CRC: the database's, else USA.
    pub open spec fn region_for(&self, crc: u32) -> Region {
        if first_game(self.game_list@, crc, 0) < self.game_list@.len() {
            self.game_list@[first_game(self.game_list@, crc, 0)].region
        } else {
            Region::USA
        }
    }

    /// A cartridge slot with nothing in it and the built-in database.
    pub fn new() -> (r: Self)
        ensures
            r.rom_hw.mapper == MAPPER_NONE,
            r.rom_hw.pages == 0,
            r.rom_hw.fcr@ == seq![0u8, 0u8, 0u8, 0u8],
            r.bios_hw.mapper == MAPPER_NONE,
            r.bios_hw.pages == 0,
            r.slot.mapper == MAPPER_NONE,
            r.slot.pages == 0,
            r.game_list@ == built_in_games(),
    {
        let r = SmsCartridge {
            rom_hw: RomHardware { fcr: [0; 4], mapper: MAPPER_NONE, pages: 0 },
            bios_hw: RomHardware { fcr: [0; 4], mapper: MAPPER_NONE, pages: 0 },
            slot: MemorySlot { fcr: [0; 4], mapper: MAPPER_NONE, pages: 0 },
            game_list: SmsCartridge::create_game_list(),
        };
        assert(r.rom_hw.fcr@ =~= seq![0u8, 0u8, 0u8, 0u8]);
        r
    }

    /// Takes a cartridge: counts its pages by the page size of the
    /// mapper that its size suggests, then lets the database choose the
    /// mapper.
    pub fn init(&mut self, cart: &Cartridge, system_hw: System, region: Region)
        ensures
            final(self).rom_hw.mapper == old(self).mapper_for(crc32_of(cart.rom@), cart.rom@.len() as int),
            final(self).rom_hw.pages == pages_of(
                cart.rom@.len() as int,
                if cart.rom@.len() > 0xC000 {
                    0x4000
                } else {
                    0x400
                },
            ),
            final(self).rom_hw.fcr == old(self).rom_hw.fcr,
            final(self).bios_hw == old(self).bios_hw,
            final(self).slot == old(self).slot,
            final(self).game_list == old(self).game_list,
    {
        let crc = calculate(cart.rom.as_slice());
        self.rom_hw.mapper = if cart.rom.len() > 0xC000 {
            MAPPER_SEGA
        } else {
            MAPPER_NONE
        };
        self.rom_hw.pages = self.calculate_pages(cart.rom.len());
        self.auto_detect(crc, system_hw, region);
        self.init_extra_hardware();
    }

    /// Puts the paging registers into their initial state. The BIOS
    /// always starts as a Sega mapper does.
    pub fn reset(&mut self, cart: &Cartridge, memory: &mut MemoryMap)
        ensures
            final(self).rom_hw.fcr@ == initial_fcr(old(self).rom_hw.mapper),
            final(self).bios_hw.fcr@ == seq![0u8, 0u8, 1u8, 2u8],
            final(self).rom_hw.mapper == old(self).rom_hw.mapper,
            final(self).rom_hw.pages == old(self).rom_hw.pages,
            final(self).bios_hw.mapper == old(self).bios_hw.mapper,
            final(self).bios_hw.pages == old(self).bios_hw.pages,
            final(self).slot == old(self).slot,
            final(self).game_list == old(self).game_list,
            *final(memory) == *old(memory),
    {
        self.reset_paging();
        self.reset_memory_map(cart, memory);
    }

    /// Switching between BIOS and cartridge is the console's work.
    pub fn switch(&mut self, mode: u8, cart: &Cartridge, memory: &mut MemoryMap)
        ensures
            *final(self) == *old(self),
            *final(memory) == *old(memory),
    {
    }

    /// Bytes of on-cartridge RAM.
    pub fn ram_size(&self) -> (r: usize)
        ensures
            r == ram_size_of(self.rom_hw.mapper),
    {
        let m = self.rom_hw.mapper;
        if m == MAPPER_RAM_8K || m == MAPPER_RAM_8K_EXT1 {
            0x2000
        } else if m == MAPPER_RAM_2K {
            0x800
        } else {
            0
        }
    }

    /// The region of a cartridge, from the database.
    pub fn detect_region(&self, cart: &Cartridge) -> (r: Region)
        ensures
            r == self.region_for(crc32_of(cart.rom@)),
    {
        let crc = calculate(cart.rom.as_slice());
        let pos = self.find_game(crc);
        if pos < self.game_list.len() {
            self.game_list[pos].region
        } else {
            Region::USA
        }
    }

    fn find_game(&self, crc: u32) -> (r: usize)
        ensures
            r == first_game(self.game_list@, crc, 0),
            r <= self.game_list@.len(),
    {
        let mut i: usize = 0;
        while i < self.game_list.len()
            invariant
                i <= self.game_list@.len(),
                first_game(self.game_list@, crc, 0) == first_game(self.game_list@, crc, i as int),
            decreases self.game_list@.len() - i,
        {
            if self.game_list[i].crc == crc {
                return i;
            }
            i = i + 1;
        }
        i
    }

    fn create_game_list() -> (r: Vec<RomInfo>)
        ensures
            r@ == built_in_games(),
    {
        let mut games: Vec<RomInfo> = Vec::new();
        games.push(
            RomInfo {
                crc: 0x3275_9751,
                g_3d: false,
                fm: true,
                peripheral: 0,
                mapper: MAPPER_SEGA,
                system: System::SMS,
                region: Region::JapanNTSC,
            },
        );
        games.push(
            RomInfo {
                crc: 0x2982_2980,
                g_3d: false,
                fm: false,
                peripheral: 0,
                mapper: MAPPER_CODIES,
                system: System::SMS2,
                region: Region::Europe,
            },
        );
        assert(games@ =~= built_in_games());
        games
    }

    fn calculate_pages(&self, rom_size: usize) -> (r: u16)
        ensures
            r == pages_of(rom_size as int, page_size_of(self.rom_hw.mapper)),
    {
        count_pages(rom_size, page_size(self.rom_hw.mapper))
    }

    fn auto_detect(&mut self, crc: u32, system_hw: System, region: Region)
        ensures
            *final(self) == (SmsCartridge {
                rom_hw: RomHardware {
                    mapper: if first_game(old(self).game_list@, crc, 0) < old(self).game_list@.len() {
                        old(self).game_list@[first_game(old(self).game_list@, crc, 0)].mapper
                    } else {
                        old(self).rom_hw.mapper
                    },
                    ..old(self).rom_hw
                },
                ..*old(self)
            }),
    {
        let pos = self.find_game(crc);
        if pos < self.game_list.len() {
            self.rom_hw.mapper = self.game_list[pos].mapper;
        }
    }

    /// The serial memory and the drawing tablet of the two mappers that
    /// have them live in their own types.
    fn init_extra_hardware(&self) {
    }

    fn reset_paging(&mut self)
        ensures
            final(self).rom_hw.fcr@ == initial_fcr(old(self).rom_hw.mapper),
            final(self).bios_hw.fcr@ == seq![0u8, 0u8, 1u8, 2u8],
            final(self).rom_hw.mapper == old(self).rom_hw.mapper,
            final(self).rom_hw.pages == old(self).rom_hw.pages,
            final(self).bios_hw.mapper == old(self).bios_hw.mapper,
            final(self).bios_hw.pages == old(self).bios_hw.pages,
            final(self).slot == old(self).slot,
            final(self).game_list == old(self).game_list,
    {
        self.rom_hw.fcr = reset_registers(self.rom_hw.mapper);
        self.bios_hw.fcr = [0, 0, 1, 2];
        assert(self.bios_hw.fcr@ =~= seq![0u8, 0u8, 1u8, 2u8]);
    }

    /// The pages are mapped when the paging registers are next written.
    fn reset_memory_map(&mut self, cart: &Cartridge, memory: &mut MemoryMap)
        ensures
            *final(self) == *old(self),
            *final(memory) == *old(memory),
    {
    }
}

} // verus!
