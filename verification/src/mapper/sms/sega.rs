//! The Sega mapper: three 16 KiB slots paged by the registers at 0xFFFC
//! to 0xFFFF.

use vstd::prelude::*;
use crate::mapper::sms::common::{banked_byte, read_banked};
use crate::mapper::sms::count_pages;
use crate::mapper::sms::pages_of;

verus! {

pub struct SegaMapper {
    pub fcr: [u8; 4],
    pub rom: Vec<u8>,
    pub pages: u16,
    pub has_ram: bool,
    pub ram_enabled: bool,
}

impl SegaMapper {
    /// The byte read at an address: the three slots read the pages that
    /// registers 1 to 3 select; with the RAM switched in at 0x8000 that
    /// slot reads as 0xFF, as does everything from 0xC000 on.
    pub open spec fn byte_at(&self, address: u16) -> u8 {
        if address < 0x4000 {
            banked_byte(self.rom@, self.pages, self.fcr[1] as int, 0x4000, address as int)
        } else if address < 0x8000 {
            banked_byte(self.rom@, self.pages, self.fcr[2] as int, 0x4000, address - 0x4000)
        } else if address < 0xC000 {
            if self.ram_enabled && (self.fcr[0] / 8) % 2 == 1 {
                0xFF
            } else {
                banked_byte(self.rom@, self.pages, self.fcr[3] as int, 0x4000, address - 0x8000)
            }
        } else {
            0xFF
        }
    }

    pub fn new(rom: Vec<u8>) -> (r: Self)
        ensures
            r.fcr@ == seq![0u8, 0u8, 1u8, 2u8],
            r.rom == rom,
            r.pages == pages_of(rom@.len() as int, 0x4000),
            !r.has_ram,
            !r.ram_enabled,
    {
        let pages = count_pages(rom.len(), 0x4000);
        let r = SegaMapper { fcr: [0, 0, 1, 2], rom, pages, has_ram: false, ram_enabled: false };
        assert(r.fcr@ =~= seq![0u8, 0u8, 1u8, 2u8]);
        r
    }

    pub fn set_ram(&mut self, enabled: bool)
        ensures
            *final(self) == (SegaMapper { has_ram: true, ram_enabled: enabled, ..*old(self) }),
    {
        self.has_ram = true;
        self.ram_enabled = enabled;
    }

    pub fn read(&self, address: u16) -> (r: u8)
        ensures
            r == self.byte_at(address),
    {
        if address < 0x4000 {
            read_banked(&self.rom, self.pages, self.fcr[1], 0x4000, address as usize)
        } else if address < 0x8000 {
            read_banked(&self.rom, self.pages, self.fcr[2], 0x4000, (address - 0x4000) as usize)
        } else if address < 0xC000 {
            if self.ram_enabled && (self.fcr[0] / 8) % 2 == 1 {
                0xFF
            } else {
                read_banked(&self.rom, self.pages, self.fcr[3], 0x4000, (address - 0x8000) as usize)
            }
        } else {
            0xFF
        }
    }

    /// A write: the four registers at the top of memory keep what is
    /// written, and bit 3 of the first switches the RAM.
    pub fn write(&mut self, address: u16, value: u8)
        ensures
            address < 0xFFFC ==> *final(self) == *old(self),
            address >= 0xFFFC ==> final(self).fcr@ == old(self).fcr@.update(address - 0xFFFC, value) && final(self).rom == old(self).rom && final(self).pages == old(self).pages && final(self).has_ram == old(self).has_ram && final(self).ram_enabled == (if address == 0xFFFC {
                (value / 8) % 2 == 1
            } else {
                old(self).ram_enabled
            }),
    {
        if address >= 0xFFFC {
            let offset: usize = (address - 0xFFFC) as usize;
            self.fcr[offset] = value;
            if offset == 0 {
                self.ram_enabled = (value / 8) % 2 == 1;
            }
        }
    }

    pub fn reset(&mut self)
        ensures
            final(self).fcr@ == seq![0u8, 0u8, 1u8, 2u8],
            !final(self).ram_enabled,
            final(self).rom == old(self).rom,
            final(self).pages == old(self).pages,
            final(self).has_ram == old(self).has_ram,
    {
        self.fcr = [0, 0, 1, 2];
        self.ram_enabled = false;
        assert(self.fcr@ =~= seq![0u8, 0u8, 1u8, 2u8]);
    }
}

} // verus!
