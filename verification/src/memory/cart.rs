//! The cartridge: ROM image, header, bank registers and save memory.

use vstd::prelude::*;
use crate::bits::{high_byte, low_byte, make_word, word_of, lo_byte, hi_byte};
use crate::memory::{MemoryError, MemoryResult, MAX_ROM_SIZE};

verus! {

/// Bytes of the ROM header that the cartridge keeps.
pub const HEADER_SIZE: usize = 0x200;

/// Size of the save memory of a cartridge that declares one.
pub const DEFAULT_SRAM_SIZE: usize = 0x8000;

/// Region code taken where the header names none that is known.
pub const DEFAULT_REGION: u8 = 0x34;

#[derive(Clone, Copy, Debug, PartialEq, Eq, Structural)]
pub enum MapperType {
    /// Linear ROM, no mapper.
    Linear,
    /// Sega bank registers.
    Sega,
    Codemasters,
    Korean,
    Realtec,
    Sms,
    GameGear,
}

pub struct Cartridge {
    pub rom: Vec<u8>,
    pub rom_size: usize,
    pub rom_mask: u32,
    pub sram: Vec<u8>,
    pub sram_size: usize,
    pub sram_mask: u32,
    pub sram_enabled: bool,
    pub sram_dirty: bool,
    pub mapper: MapperType,
    pub bank_regs: [u8; 8],
    pub bank_start: [u32; 8],
    pub has_sram: bool,
    pub has_eeprom: bool,
    pub is_pal: bool,
    pub region: u8,
    pub header: [u8; 0x200],
}

/// The smallest mask of the form `2^k - 1`, counted up from `m`, that
/// covers every offset of a ROM of `size` bytes.
pub open spec fn covering_mask_from(size: int, m: int) -> int
    decreases (if size > m {
        size - m
    } else {
        0
    }),
{
    if m < 0 || m + 1 >= size {
        m
    } else {
        covering_mask_from(size, 2 * m + 1)
    }
}

/// The address mask of a ROM of `size` bytes.
pub open spec fn covering_mask(size: int) -> int {
    covering_mask_from(size, 0)
}

/// The header after a ROM image was loaded: the image's first bytes, and
/// behind a short image what the header held before.
pub open spec fn header_after(before: Seq<u8>, image: Seq<u8>) -> Seq<u8> {
    Seq::new(
        HEADER_SIZE as nat,
        |i: int|
            if i < image.len() {
                image[i]
            } else {
                before[i]
            },
    )
}

/// The header spells "SEGA" at 0x180.
pub open spec fn names_sega_mapper(header: Seq<u8>) -> bool {
    header[0x180] == 0x53 && header[0x181] == 0x45 && header[0x182] == 0x47 && header[0x183] == 0x41
}

/// The mapper of a ROM: images past 4 MiB need the Sega mapper, and
/// smaller ones with a whole header may ask for it.
pub open spec fn mapper_of(header: Seq<u8>, size: int) -> MapperType {
    if size > 0x40_0000 {
        MapperType::Sega
    } else if size >= HEADER_SIZE && names_sega_mapper(header) {
        MapperType::Sega
    } else {
        MapperType::Linear
    }
}

/// Whether the header declares save memory: "RA" at 0x1B0.
pub open spec fn declares_sram(header: Seq<u8>, size: int) -> bool {
    size >= HEADER_SIZE && header[0x1B0] == 0x52 && header[0x1B1] == 0x41
}

/// The region byte names a PAL territory.
pub open spec fn is_pal_code(code: u8) -> bool {
    code == 0x32 || code == 0x33 || code == 0x37 || code == 0x38 || code == 0x39 || code == 0x42 || code == 0x44
        || code == 0x46 || code == 0x48 || code == 0x4A
}

/// The region byte names an NTSC territory.
pub open spec fn is_ntsc_code(code: u8) -> bool {
    code == 0x31 || code == 0x34 || code == 0x35 || code == 0x36
}

/// The region code of a ROM: the byte at 0x1F0 where it is a known code,
/// the default where it is not, and 0 where the image ends before it.
pub open spec fn region_code_of(header: Seq<u8>, size: int) -> u8 {
    if size < 0x1F0 {
        0
    } else if is_pal_code(header[0x1F0]) || is_ntsc_code(header[0x1F0]) {
        header[0x1F0]
    } else {
        DEFAULT_REGION
    }
}

/// Whether a ROM is for a PAL territory.
pub open spec fn pal_of(header: Seq<u8>, size: int) -> bool {
    size >= 0x1F0 && is_pal_code(header[0x1F0])
}

/// Where bank `i` starts after a reset of the banks.
pub open spec fn initial_bank_start(mapper: MapperType, i: int) -> u32 {
    match mapper {
        MapperType::Sega => if i < 6 {
            (i * 0x1_0000) as u32
        } else if i == 6 {
            0x30_0000
        } else {
            0x40_0000
        },
        MapperType::Linear => (i * 0x8_0000) as u32,
        _ => 0,
    }
}

/// Where a bank starts once its register holds `value`; None where the
/// mapper does not move that bank.
pub open spec fn moved_bank_start(mapper: MapperType, bank: int, value: u8) -> Option<u32> {
    match mapper {
        MapperType::Sega => if bank < 6 {
            Some(((value % 64) * 0x1_0000) as u32)
        } else {
            None
        },
        MapperType::Codemasters => if bank == 0 {
            Some(((value % 4) * 0x4000) as u32)
        } else {
            None
        },
        _ => None,
    }
}

/// The address after `addr`, wrapping at 32 bits.
pub open spec fn following(addr: u32) -> u32 {
    if addr == u32::MAX {
        0
    } else {
        (addr + 1) as u32
    }
}

impl Cartridge {
    /// The ROM offset that a bus address reads: masked as it is on a
    /// linear ROM, and with the bank's start in place of the upper bits
    /// behind a mapper.
    pub open spec fn rom_offset(&self, addr: u32) -> u32 {
        if self.mapper == MapperType::Linear {
            addr & self.rom_mask
        } else {
            (self.bank_start[((addr / 0x1_0000) % 8) as int] | (addr & 0xFFFF)) & self.rom_mask
        }
    }

    /// The byte that a bus address reads from ROM; past the image, 0xFF.
    pub open spec fn rom_byte(&self, addr: u32) -> u8 {
        if self.rom_offset(addr) < self.rom@.len() {
            self.rom@[self.rom_offset(addr) as int]
        } else {
            0xFF
        }
    }

    /// The save memory answers at `addr`.
    pub open spec fn sram_answers(&self, addr: u32) -> bool {
        &&& self.sram_enabled
        &&& self.has_sram
        &&& (addr & self.sram_mask) < self.sram_size
        &&& (addr & self.sram_mask) < self.sram@.len()
    }

    /// The word that a bus address reads from ROM, little-endian.
    pub open spec fn rom_word(&self, addr: u32) -> u16 {
        word_of(self.rom_byte(addr), self.rom_byte(following(addr)))
    }

    /// The ROM image after a byte was stored through the mapper; past
    /// the image nothing is stored.
    pub open spec fn rom_with(&self, addr: u32, value: u8) -> Seq<u8> {
        self.image_with(self.rom@, addr, value)
    }

    /// An image of the ROM after a byte was stored in it through the
    /// mapper.
    pub open spec fn image_with(&self, image: Seq<u8>, addr: u32, value: u8) -> Seq<u8> {
        if self.rom_offset(addr) < image.len() {
            image.update(self.rom_offset(addr) as int, value)
        } else {
            image
        }
    }

    /// The ROM image after a word was stored through the mapper: the
    /// low byte at the address, the high byte at the next.
    pub open spec fn rom_with_word(&self, addr: u32, value: u16) -> Seq<u8> {
        self.image_with(self.rom_with(addr, lo_byte(value)), following(addr), hi_byte(value))
    }

    /// Reads a byte on the cartridge's side of the bus.
    pub fn read_byte(&self, addr: u32) -> (r: u8)
        ensures
            r == self.rom_byte(addr),
    {
        self.read_rom(addr)
    }

    /// Reads a word on the cartridge's side of the bus.
    pub fn read_word(&self, addr: u32) -> (r: u16)
        ensures
            r == self.rom_word(addr),
    {
        make_word(self.read_rom(addr), self.read_rom(addr.wrapping_add(1)))
    }

    /// Stores a byte into the ROM image, as a flash cartridge with its
    /// write enable set does.
    pub fn write_byte(&mut self, addr: u32, value: u8)
        ensures
            *final(self) == (Cartridge { rom: final(self).rom, ..*old(self) }),
            final(self).rom@ == old(self).rom_with(addr, value),
    {
        let effective: u32 = if self.mapper == MapperType::Linear {
            addr & self.rom_mask
        } else {
            let bank: usize = ((addr / 0x1_0000) % 8) as usize;
            (self.bank_start[bank] | (addr & 0xFFFF)) & self.rom_mask
        };
        if (effective as usize) < self.rom.len() {
            self.rom[effective as usize] = value;
        }
    }

    /// Stores a word into the ROM image, low byte first.
    pub fn write_word(&mut self, addr: u32, value: u16)
        ensures
            *final(self) == (Cartridge { rom: final(self).rom, ..*old(self) }),
            final(self).rom@ == old(self).rom_with_word(addr, value),
    {
        self.write_byte(addr, low_byte(value));
        self.write_byte(addr.wrapping_add(1), high_byte(value));
    }

    /// An empty cartridge.
    pub fn new() -> (c: Self)
        ensures
            c.rom@.len() == 0,
            c.rom_size == 0,
            c.rom_mask == 0,
            c.sram@.len() == 0,
            c.sram_size == 0,
            c.sram_mask == 0,
            !c.sram_enabled,
            !c.sram_dirty,
            c.mapper == MapperType::Linear,
            forall|i: int| 0 <= i < 8 ==> c.bank_regs[i] == 0 && c.bank_start[i] == 0,
            !c.has_sram,
            !c.has_eeprom,
            !c.is_pal,
            c.region == 0,
            forall|i: int| 0 <= i < HEADER_SIZE ==> c.header[i] == 0,
    {
        Cartridge {
            rom: Vec::new(),
            rom_size: 0,
            rom_mask: 0,
            sram: Vec::new(),
            sram_size: 0,
            sram_mask: 0,
            sram_enabled: false,
            sram_dirty: false,
            mapper: MapperType::Linear,
            bank_regs: [0; 8],
            bank_start: [0; 8],
            has_sram: false,
            has_eeprom: false,
            is_pal: false,
            region: 0,
            header: [0; 0x200],
        }
    }

    /// Loads a ROM image: keeps the image and its header, derives the
    /// address mask, and detects mapper, save memory and region. An image
    /// past the largest size is refused and changes nothing.
    pub fn load_from_buffer(&mut self, buffer: &[u8]) -> (r: MemoryResult<()>)
        ensures
            buffer@.len() > MAX_ROM_SIZE ==> r == Err::<(), MemoryError>(MemoryError::RomTooLarge) && *final(self)
                == *old(self),
            buffer@.len() <= MAX_ROM_SIZE ==> r is Ok && final(self).rom@ == buffer@ && final(self).rom_size
                == buffer@.len() && final(self).rom_mask == covering_mask(buffer@.len() as int)
                && final(self).header@ == header_after(old(self).header@, buffer@) && final(self).mapper
                == mapper_of(final(self).header@, buffer@.len() as int) && (forall|i: int|
                0 <= i < 8 ==> #[trigger] final(self).bank_regs[i] == 0) && (forall|i: int|
                0 <= i < 8 ==> #[trigger] final(self).bank_start[i] == initial_bank_start(final(self).mapper, i))
                && final(self).has_sram == declares_sram(final(self).header@, buffer@.len() as int)
                && final(self).region == region_code_of(final(self).header@, buffer@.len() as int)
                && final(self).is_pal == pal_of(final(self).header@, buffer@.len() as int),
            buffer@.len() <= MAX_ROM_SIZE && final(self).has_sram ==> final(self).sram_size == DEFAULT_SRAM_SIZE
                && final(self).sram_mask == 0x7FFF && final(self).sram@ == Seq::new(
                DEFAULT_SRAM_SIZE as nat,
                |i: int| 0u8,
            ),
            buffer@.len() <= MAX_ROM_SIZE && !final(self).has_sram ==> final(self).sram_size == 0 && final(self).sram@ == old(self).sram@ && final(self).sram_mask == old(self).sram_mask,
            final(self).sram_enabled == old(self).sram_enabled,
            final(self).sram_dirty == old(self).sram_dirty,
            final(self).has_eeprom == old(self).has_eeprom,
    {
        if buffer.len() > MAX_ROM_SIZE {
            return Err(MemoryError::RomTooLarge);
        }
        self.rom_size = buffer.len();
        self.rom = vstd::slice::slice_to_vec(buffer);
        self.rom_mask = address_mask_for(buffer.len());
        let header_len: usize = if self.rom_size < HEADER_SIZE {
            self.rom_size
        } else {
            HEADER_SIZE
        };
        let mut i: usize = 0;
        while i < header_len
            invariant
                i <= header_len,
                header_len <= HEADER_SIZE,
                header_len <= buffer@.len(),
                forall|j: int| 0 <= j < i ==> self.header[j] == buffer@[j],
                forall|j: int| i <= j < HEADER_SIZE ==> self.header[j] == old(self).header[j],
                *self == (Cartridge { header: self.header, ..*self }),
                self.rom@ == buffer@,
                self.rom_size == buffer@.len(),
                self.rom_mask == covering_mask(buffer@.len() as int),
                self.sram == old(self).sram,
                self.sram_mask == old(self).sram_mask,
                self.sram_enabled == old(self).sram_enabled,
                self.sram_dirty == old(self).sram_dirty,
                self.has_eeprom == old(self).has_eeprom,
            decreases header_len - i,
        {
            self.header[i] = buffer[i];
            i = i + 1;
        }
        assert(self.header@ =~= header_after(old(self).header@, buffer@));
        self.detect_mapper();
        self.detect_sram();
        self.detect_region();
        Ok(())
    }

    fn detect_mapper(&mut self)
        ensures
            *final(self) == (Cartridge {
                mapper: final(self).mapper,
                bank_regs: final(self).bank_regs,
                bank_start: final(self).bank_start,
                ..*old(self)
            }),
            final(self).mapper == mapper_of(old(self).header@, old(self).rom_size as int),
            forall|i: int| 0 <= i < 8 ==> #[trigger] final(self).bank_regs[i] == 0,
            forall|i: int|
                0 <= i < 8 ==> #[trigger] final(self).bank_start[i] == initial_bank_start(final(self).mapper, i),
    {
        if self.rom_size <= 0x40_0000 {
            self.mapper = MapperType::Linear;
            if self.rom_size >= HEADER_SIZE {
                if self.header[0x180] == 0x53 && self.header[0x181] == 0x45 && self.header[0x182] == 0x47
                    && self.header[0x183] == 0x41 {
                    self.mapper = MapperType::Sega;
                }
            }
        } else {
            self.mapper = MapperType::Sega;
        }
        self.reset_banks();
    }

    fn detect_sram(&mut self)
        ensures
            *final(self) == (Cartridge {
                has_sram: final(self).has_sram,
                sram_size: final(self).sram_size,
                sram: final(self).sram,
                sram_mask: final(self).sram_mask,
                ..*old(self)
            }),
            final(self).has_sram == declares_sram(old(self).header@, old(self).rom_size as int),
            final(self).has_sram ==> final(self).sram_size == DEFAULT_SRAM_SIZE && final(self).sram_mask == 0x7FFF
                && final(self).sram@ == Seq::new(DEFAULT_SRAM_SIZE as nat, |i: int| 0u8),
            !final(self).has_sram ==> final(self).sram_size == 0 && final(self).sram@ == old(self).sram@ && final(self).sram_mask == old(self).sram_mask,
    {
        self.has_sram = false;
        self.sram_size = 0;
        if self.rom_size >= HEADER_SIZE {
            if self.header[0x1B0] == 0x52 && self.header[0x1B1] == 0x41 {
                self.has_sram = true;
                self.sram_size = DEFAULT_SRAM_SIZE;
            }
        }
        if self.has_sram {
            self.sram = vec![0u8; DEFAULT_SRAM_SIZE];
            self.sram_mask = 0x7FFF;
            assert(self.sram@ =~= Seq::new(DEFAULT_SRAM_SIZE as nat, |i: int| 0u8));
        }
    }

    fn detect_region(&mut self)
        ensures
            *final(self) == (Cartridge { region: final(self).region, is_pal: final(self).is_pal, ..*old(self) }),
            final(self).region == region_code_of(old(self).header@, old(self).rom_size as int),
            final(self).is_pal == pal_of(old(self).header@, old(self).rom_size as int),
    {
        self.region = 0;
        self.is_pal = false;
        if self.rom_size >= 0x1F0 {
            let code: u8 = self.header[0x1F0];
            if code == 0x31 || code == 0x34 || code == 0x35 || code == 0x36 {
                self.region = code;
            } else if code == 0x32 || code == 0x33 || code == 0x37 || code == 0x38 || code == 0x39 || code == 0x42
                || code == 0x44 || code == 0x46 || code == 0x48 || code == 0x4A {
                self.region = code;
                self.is_pal = true;
            } else {
                self.region = DEFAULT_REGION;
            }
        }
    }

    fn reset_banks(&mut self)
        ensures
            *final(self) == (Cartridge {
                bank_regs: final(self).bank_regs,
                bank_start: final(self).bank_start,
                ..*old(self)
            }),
            forall|i: int| 0 <= i < 8 ==> #[trigger] final(self).bank_regs[i] == 0,
            forall|i: int|
                0 <= i < 8 ==> #[trigger] final(self).bank_start[i] == initial_bank_start(old(self).mapper, i),
    {
        self.bank_regs = [0; 8];
        let mapper = self.mapper;
        let mut i: usize = 0;
        while i < 8
            invariant
                i <= 8,
                mapper == old(self).mapper,
                *self == (Cartridge { bank_regs: self.bank_regs, bank_start: self.bank_start, ..*old(self) }),
                forall|j: int| 0 <= j < 8 ==> #[trigger] self.bank_regs[j] == 0,
                forall|j: int| 0 <= j < i ==> #[trigger] self.bank_start[j] == initial_bank_start(mapper, j),
            decreases 8 - i,
        {
            self.bank_start[i] = match mapper {
                MapperType::Sega => if i < 6 {
                    (i as u32) * 0x1_0000
                } else if i == 6 {
                    0x30_0000
                } else {
                    0x40_0000
                },
                MapperType::Linear => (i as u32) * 0x8_0000,
                _ => 0,
            };
            i = i + 1;
        }
    }

    /// Writes a bank register and moves the bank that it controls. A
    /// register past the eighth does not exist.
    pub fn write_bank_reg(&mut self, reg: usize, value: u8)
        ensures
            reg >= 8 ==> *final(self) == *old(self),
            reg < 8 ==> *final(self) == (Cartridge {
                bank_regs: final(self).bank_regs,
                bank_start: final(self).bank_start,
                ..*old(self)
            }) && final(self).bank_regs@ == old(self).bank_regs@.update(reg as int, value) && final(self).bank_start@ == (match moved_bank_start(old(self).mapper, reg as int, value) {
                Some(start) => old(self).bank_start@.update(reg as int, start),
                None => old(self).bank_start@,
            }),
    {
        if reg < 8 {
            self.bank_regs[reg] = value;
            self.update_bank(reg);
        }
    }

    fn update_bank(&mut self, bank: usize)
        requires
            bank < 8,
        ensures
            *final(self) == (Cartridge { bank_start: final(self).bank_start, ..*old(self) }),
            final(self).bank_start@ == (match moved_bank_start(
                old(self).mapper,
                bank as int,
                old(self).bank_regs[bank as int],
            ) {
                Some(start) => old(self).bank_start@.update(bank as int, start),
                None => old(self).bank_start@,
            }),
    {
        match self.mapper {
            MapperType::Sega => {
                if bank < 6 {
                    let bank_num: u32 = self.bank_regs[bank] as u32;
                    self.bank_start[bank] = (bank_num % 64) * 0x1_0000;
                }
            },
            MapperType::Codemasters => {
                if bank == 0 {
                    let bank_num: u32 = self.bank_regs[0] as u32;
                    self.bank_start[0] = (bank_num % 4) * 0x4000;
                }
            },
            _ => {},
        }
    }

    /// Reads a byte of ROM through the mapper.
    pub fn read_rom(&self, addr: u32) -> (r: u8)
        ensures
            r == self.rom_byte(addr),
    {
        let effective: u32 = if self.mapper == MapperType::Linear {
            addr & self.rom_mask
        } else {
            let bank: usize = ((addr / 0x1_0000) % 8) as usize;
            (self.bank_start[bank] | (addr & 0xFFFF)) & self.rom_mask
        };
        if (effective as usize) < self.rom.len() {
            self.rom[effective as usize]
        } else {
            0xFF
        }
    }

    /// Reads a byte of save memory; where it does not answer, 0xFF.
    pub fn read_sram(&self, addr: u32) -> (r: u8)
        ensures
            r == (if self.sram_answers(addr) {
                self.sram@[(addr & self.sram_mask) as int]
            } else {
                0xFFu8
            }),
    {
        if self.sram_enabled && self.has_sram {
            let sram_addr: usize = (addr & self.sram_mask) as usize;
            if sram_addr < self.sram_size && sram_addr < self.sram.len() {
                return self.sram[sram_addr];
            }
        }
        0xFF
    }

    /// Writes a byte of save memory and marks it dirty; where the memory
    /// does not answer, nothing happens.
    pub fn write_sram(&mut self, addr: u32, value: u8)
        ensures
            old(self).sram_answers(addr) ==> *final(self) == (Cartridge {
                sram: final(self).sram,
                sram_dirty: true,
                ..*old(self)
            }) && final(self).sram@ == old(self).sram@.update((addr & old(self).sram_mask) as int, value),
            !old(self).sram_answers(addr) ==> *final(self) == *old(self),
    {
        if self.sram_enabled && self.has_sram {
            let sram_addr: usize = (addr & self.sram_mask) as usize;
            if sram_addr < self.sram_size && sram_addr < self.sram.len() {
                self.sram[sram_addr] = value;
                self.sram_dirty = true;
            }
        }
    }
}

/// Computes the address mask of a ROM of `size` bytes.
pub fn address_mask_for(size: usize) -> (m: u32)
    requires
        size <= MAX_ROM_SIZE,
    ensures
        m == covering_mask(size as int),
{
    let mut m: u32 = 0;
    while (m as usize) + 1 < size
        invariant
            size <= MAX_ROM_SIZE,
            m <= 2 * MAX_ROM_SIZE,
            covering_mask_from(size as int, m as int) == covering_mask(size as int),
        decreases (if size > m {
            size - m
        } else {
            0
        }),
    {
        m = 2 * m + 1;
    }
    m
}

} // verus!
