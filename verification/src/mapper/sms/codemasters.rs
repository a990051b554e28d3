//! The Codemasters mapper: three 16 KiB slots paged by writes to their
//! first addresses, and 8 KiB of RAM at 0xA000.

use vstd::prelude::*;
use crate::mapper::sms::common::{banked_byte, read_banked};
use crate::mapper::sms::count_pages;
use crate::mapper::sms::pages_of;

verus! {

/// Bytes of on-cartridge RAM.
pub const RAM_SIZE: usize = 0x2000;

pub struct CodemastersMapper {
    pub banks: [u8; 3],
    pub rom: Vec<u8>,
    pub pages: u16,
    pub ram_enabled: bool,
    pub ram: [u8; 0x2000],
}

impl CodemastersMapper {
    /// The byte read at an address: the three slots read the pages that
    /// their bank registers select, but for the RAM at 0xA000 while it
    /// is switched in; from 0xC000 on, 0xFF.
    pub open spec fn byte_at(&self, address: u16) -> u8 {
        if address < 0x4000 {
            banked_byte(self.rom@, self.pages, self.banks[0] as int, 0x4000, address as int)
        } else if address < 0x8000 {
            banked_byte(self.rom@, self.pages, self.banks[1] as int, 0x4000, address - 0x4000)
        } else if address < 0xC000 {
            if self.ram_enabled && address >= 0xA000 {
                self.ram[address - 0xA000]
            } else {
                banked_byte(self.rom@, self.pages, self.banks[2] as int, 0x4000, address - 0x8000)
            }
        } else {
            0xFF
        }
    }

    pub fn new(rom: Vec<u8>) -> (r: Self)
        ensures
            r.banks@ == seq![0u8, 0u8, 0u8],
            r.rom == rom,
            r.pages == pages_of(rom@.len() as int, 0x4000),
            !r.ram_enabled,
            r.ram@ == Seq::new(RAM_SIZE as nat, |i: int| 0u8),
    {
        let pages = count_pages(rom.len(), 0x4000);
        let r = CodemastersMapper { banks: [0, 0, 0], rom, pages, ram_enabled: false, ram: [0; 0x2000] };
        assert(r.banks@ =~= seq![0u8, 0u8, 0u8]);
        assert(r.ram@ =~= Seq::new(RAM_SIZE as nat, |i: int| 0u8));
        r
    }

    pub fn read(&self, address: u16) -> (r: u8)
        ensures
            r == self.byte_at(address),
    {
        if address < 0x4000 {
            read_banked(&self.rom, self.pages, self.banks[0], 0x4000, address as usize)
        } else if address < 0x8000 {
            read_banked(&self.rom, self.pages, self.banks[1], 0x4000, (address - 0x4000) as usize)
        } else if address < 0xC000 {
            if self.ram_enabled && address >= 0xA000 {
                self.ram[(address - 0xA000) as usize]
            } else {
                read_banked(&self.rom, self.pages, self.banks[2], 0x4000, (address - 0x8000) as usize)
            }
        } else {
            0xFF
        }
    }

    /// A write: the first address of each slot is its bank register,
    /// and bit 7 of the second switches the RAM; with the RAM switched
    /// in, 0xA000 to 0xBFFF writes to it.
    pub fn write(&mut self, address: u16, value: u8)
        ensures
            final(self).rom == old(self).rom,
            final(self).pages == old(self).pages,
            final(self).banks@ == (if address == 0x0000 {
                old(self).banks@.update(0, value)
            } else if address == 0x4000 {
                old(self).banks@.update(1, value)
            } else if address == 0x8000 {
                old(self).banks@.update(2, value)
            } else {
                old(self).banks@
            }),
            final(self).ram_enabled == (if address == 0x4000 {
                value >= 0x80
            } else {
                old(self).ram_enabled
            }),
            final(self).ram@ == (if 0xA000 <= address < 0xC000 && old(self).ram_enabled {
                old(self).ram@.update(address - 0xA000, value)
            } else {
                old(self).ram@
            }),
    {
        if address == 0x0000 {
            self.banks[0] = value;
        } else if address == 0x4000 {
            self.banks[1] = value;
            self.ram_enabled = value >= 0x80;
        } else if address == 0x8000 {
            self.banks[2] = value;
        } else if 0xA000 <= address && address < 0xC000 && self.ram_enabled {
            self.ram[(address - 0xA000) as usize] = value;
        }
    }

    pub fn reset(&mut self)
        ensures
            final(self).banks@ == seq![0u8, 0u8, 0u8],
            !final(self).ram_enabled,
            final(self).ram@ == Seq::new(RAM_SIZE as nat, |i: int| 0u8),
            final(self).rom == old(self).rom,
            final(self).pages == old(self).pages,
    {
        self.banks = [0, 0, 0];
        self.ram_enabled = false;
        self.ram = [0; 0x2000];
        assert(self.banks@ =~= seq![0u8, 0u8, 0u8]);
        assert(self.ram@ =~= Seq::new(RAM_SIZE as nat, |i: int| 0u8));
    }
}

} // verus!
