//! Mappers of multi-game cartridges.

use vstd::prelude::*;
use crate::mapper::sms::common::{banked_byte, read_banked};
use crate::mapper::sms::count_pages;
use crate::mapper::sms::korean::slot_8k;
use crate::mapper::sms::pages_of;

verus! {

pub struct Multi16kMapper {
    pub banks: [u8; 3],
    pub rom: Vec<u8>,
    pub pages: u16,
}

impl Multi16kMapper {
    /// The byte read at an address: the first two slots read their
    /// banks; the third reads its bank with bits 4 and 5 of the first
    /// bank on top; from 0xC000 on, 0xFF.
    pub open spec fn byte_at(&self, address: u16) -> u8 {
        if address < 0x4000 {
            banked_byte(self.rom@, self.pages, self.banks[0] as int, 0x4000, address as int)
        } else if address < 0x8000 {
            banked_byte(self.rom@, self.pages, self.banks[1] as int, 0x4000, address - 0x4000)
        } else if address < 0xC000 {
            banked_byte(
                self.rom@,
                self.pages,
                ((self.banks[0] & 0x30) | self.banks[2]) as int,
                0x4000,
                address - 0x8000,
            )
        } else {
            0xFF
        }
    }

    pub fn new(rom: Vec<u8>) -> (r: Self)
        ensures
            r.banks@ == seq![0u8, 0u8, 0u8],
            r.rom == rom,
            r.pages == pages_of(rom@.len() as int, 0x4000),
    {
        let pages = count_pages(rom.len(), 0x4000);
        let r = Multi16kMapper { banks: [0; 3], rom, pages };
        assert(r.banks@ =~= seq![0u8, 0u8, 0u8]);
        r
    }

    pub fn read(&self, address: u16) -> (r: u8)
        ensures
            r == self.byte_at(address),
    {
        if address < 0x4000 {
            read_banked(&self.rom, self.pages, self.banks[0], 0x4000, address as usize)
        } else if address < 0x8000 {
            read_banked(&self.rom, self.pages, self.banks[1], 0x4000, (address - 0x4000) as usize)
        } else if address < 0xC000 {
            read_banked(
                &self.rom,
                self.pages,
                (self.banks[0] & 0x30) | self.banks[2],
                0x4000,
                (address - 0x8000) as usize,
            )
        } else {
            0xFF
        }
    }

    /// A write: the last address of each slot is its bank register; the
    /// third takes bits 4 and 5 from the first and keeps six bits.
    pub fn write(&mut self, address: u16, value: u8)
        ensures
            final(self).rom == old(self).rom,
            final(self).pages == old(self).pages,
            final(self).banks@ == (if address == 0x3FFE {
                old(self).banks@.update(0, value)
            } else if address == 0x7FFF {
                old(self).banks@.update(1, value)
            } else if address == 0xBFFF {
                old(self).banks@.update(2, ((old(self).banks[0] & 0x30) | value) & 0x3F)
            } else {
                old(self).banks@
            }),
    {
        if address == 0x3FFE {
            self.banks[0] = value;
        } else if address == 0x7FFF {
            self.banks[1] = value;
        } else if address == 0xBFFF {
            self.banks[2] = ((self.banks[0] & 0x30) | value) & 0x3F;
        }
    }

    pub fn reset(&mut self)
        ensures
            final(self).banks@ == seq![0u8, 0u8, 0u8],
            final(self).rom == old(self).rom,
            final(self).pages == old(self).pages,
    {
        self.banks = [0; 3];
        assert(self.banks@ =~= seq![0u8, 0u8, 0u8]);
    }
}

pub struct Multi2x16kV1Mapper {
    pub config: u8,
    pub banks: [u8; 2],
    pub rom: Vec<u8>,
    pub pages: u16,
}

impl Multi2x16kV1Mapper {
    /// The byte read at an address: the first two slots read their
    /// banks; the third mirrors the upper half of the second bank twice,
    /// and only in configuration 1; elsewhere 0xFF.
    pub open spec fn byte_at(&self, address: u16) -> u8 {
        if address < 0x4000 {
            banked_byte(self.rom@, self.pages, self.banks[0] as int, 0x4000, address as int)
        } else if address < 0x8000 {
            banked_byte(self.rom@, self.pages, self.banks[1] as int, 0x4000, address - 0x4000)
        } else if address < 0xC000 && self.config == 1 {
            banked_byte(self.rom@, self.pages, self.banks[1] as int, 0x4000, 0x2000 + address as int % 0x2000)
        } else {
            0xFF
        }
    }

    /// The configuration that a value written to the register selects.
    pub open spec fn config_of(value: u8) -> u8 {
        (value / 32) % 4
    }

    pub fn new(rom: Vec<u8>) -> (r: Self)
        ensures
            r.config == 0,
            r.banks@ == seq![0u8, 0u8],
            r.rom == rom,
            r.pages == pages_of(rom@.len() as int, 0x4000),
    {
        let pages = count_pages(rom.len(), 0x4000);
        let r = Multi2x16kV1Mapper { config: 0, banks: [0, 0], rom, pages };
        assert(r.banks@ =~= seq![0u8, 0u8]);
        r
    }

    pub fn read(&self, address: u16) -> (r: u8)
        ensures
            r == self.byte_at(address),
    {
        if address < 0x4000 {
            read_banked(&self.rom, self.pages, self.banks[0], 0x4000, address as usize)
        } else if address < 0x8000 {
            read_banked(&self.rom, self.pages, self.banks[1], 0x4000, (address - 0x4000) as usize)
        } else if address < 0xC000 && self.config == 0x01 {
            read_banked(&self.rom, self.pages, self.banks[1], 0x4000, 0x2000 + (address % 0x2000) as usize)
        } else {
            0xFF
        }
    }

    /// A write to 0xFFFE: bits 5 and 6 are the configuration; in the
    /// upper two configurations the banks are an even-odd pair, in the
    /// lower two the first bank is 0 and the second the low five bits.
    pub fn write(&mut self, address: u16, value: u8)
        ensures
            address != 0xFFFE ==> *final(self) == *old(self),
            address == 0xFFFE ==> final(self).rom == old(self).rom && final(self).pages == old(self).pages
                && final(self).config == Self::config_of(value) && final(self).banks@ == (
            if Self::config_of(value) >= 2 {
                seq![((value % 32) / 2 * 2) as u8, ((value % 32) / 2 * 2 + 1) as u8]
            } else {
                seq![0u8, (value % 32) as u8]
            }),
    {
        if address == 0xFFFE {
            self.config = (value / 32) % 4;
            if self.config >= 2 {
                let base: u8 = (value % 32) / 2 * 2;
                self.banks[0] = base;
                self.banks[1] = base + 1;
                assert(self.banks@ =~= seq![((value % 32) / 2 * 2) as u8, ((value % 32) / 2 * 2 + 1) as u8]);
            } else {
                self.banks[0] = 0x00;
                self.banks[1] = value % 32;
                assert(self.banks@ =~= seq![0u8, (value % 32) as u8]);
            }
        }
    }

    pub fn reset(&mut self)
        ensures
            final(self).config == 0,
            final(self).banks@ == seq![0u8, 0u8],
            final(self).rom == old(self).rom,
            final(self).pages == old(self).pages,
    {
        self.config = 0;
        self.banks = [0, 0];
        assert(self.banks@ =~= seq![0u8, 0u8]);
    }
}

/// The bank register that a write selects by the high byte of its
/// address, if it selects one: 0, 2, 1 and 3 for the first four pages of
/// 256 bytes.
pub open spec fn register_8k(address: u16) -> Option<int> {
    if address / 256 == 0 {
        Some(0int)
    } else if address / 256 == 1 {
        Some(2int)
    } else if address / 256 == 2 {
        Some(1int)
    } else if address / 256 == 3 {
        Some(3int)
    } else {
        None
    }
}

pub struct Multi8kMapper {
    pub banks: [u8; 4],
    pub rom: Vec<u8>,
    pub pages: u16,
}

impl Multi8kMapper {
    /// The byte read at an address; from 0xC000 on, 0xFF.
    pub open spec fn byte_at(&self, address: u16) -> u8 {
        if address >= 0xC000 {
            0xFF
        } else {
            banked_byte(
                self.rom@,
                self.pages,
                self.banks[slot_8k(address)] as int,
                0x2000,
                address as int % 0x2000,
            )
        }
    }

    pub fn new(rom: Vec<u8>) -> (r: Self)
        ensures
            r.banks@ == seq![0u8, 0u8, 0u8, 0u8],
            r.rom == rom,
            r.pages == pages_of(rom@.len() as int, 0x2000),
    {
        let pages = count_pages(rom.len(), 0x2000);
        let r = Multi8kMapper { banks: [0; 4], rom, pages };
        assert(r.banks@ =~= seq![0u8, 0u8, 0u8, 0u8]);
        r
    }

    pub fn read(&self, address: u16) -> (r: u8)
        ensures
            r == self.byte_at(address),
    {
        if address >= 0xC000 {
            return 0xFF;
        }
        let bank_idx: usize = if address < 0x8000 {
            (address / 0x2000) as usize
        } else {
            ((address - 0x8000) / 0x2000) as usize
        };
        read_banked(&self.rom, self.pages, self.banks[bank_idx], 0x2000, (address % 0x2000) as usize)
    }

    /// A write to one of the first four pages of 256 bytes sets a bank
    /// register.
    pub fn write(&mut self, address: u16, value: u8)
        ensures
            final(self).rom == old(self).rom,
            final(self).pages == old(self).pages,
            final(self).banks@ == (match register_8k(address) {
                Some(k) => old(self).banks@.update(k, value),
                None => old(self).banks@,
            }),
    {
        let page: u16 = address / 256;
        if page == 0 {
            self.banks[0] = value;
        } else if page == 1 {
            self.banks[2] = value;
        } else if page == 2 {
            self.banks[1] = value;
        } else if page == 3 {
            self.banks[3] = value;
        }
    }

    pub fn reset(&mut self)
        ensures
            final(self).banks@ == seq![0u8, 0u8, 0u8, 0u8],
            final(self).rom == old(self).rom,
            final(self).pages == old(self).pages,
    {
        self.banks = [0; 4];
        assert(self.banks@ =~= seq![0u8, 0u8, 0u8, 0u8]);
    }
}

} // verus!
