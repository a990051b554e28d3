//! The MSX mappers: four 8 KiB slots paged by the first four addresses,
//! and one 16 KiB bank for all of memory.

use vstd::prelude::*;
use crate::mapper::sms::common::{banked_byte, read_banked};
use crate::mapper::sms::count_pages;
use crate::mapper::sms::korean::slot_8k;
use crate::mapper::sms::pages_of;

verus! {

pub struct Msx8kMapper {
    pub banks: [u8; 4],
    pub rom: Vec<u8>,
    pub pages: u16,
    /// The first slot always shows the last page.
    pub is_nemesis: bool,
}

impl Msx8kMapper {
    /// The bank that a slot shows: its register, but on the Nemesis
    /// board the first slot shows the last page, as the eight bits of a
    /// register hold its number.
    pub open spec fn bank_of(&self, slot: int) -> u8 {
        if self.is_nemesis && slot == 0 {
            ((self.pages - 1) % 256) as u8
        } else {
            self.banks[slot]
        }
    }

    /// The byte read at an address; from 0xC000 on, 0xFF.
    pub open spec fn byte_at(&self, address: u16) -> u8 {
        if address >= 0xC000 {
            0xFF
        } else {
            banked_byte(
                self.rom@,
                self.pages,
                self.bank_of(slot_8k(address)) as int,
                0x2000,
                address as int % 0x2000,
            )
        }
    }

    pub fn new(rom: Vec<u8>, is_nemesis: bool) -> (r: Self)
        ensures
            r.banks@ == seq![0u8, 0u8, 0u8, 0u8],
            r.rom == rom,
            r.pages == pages_of(rom@.len() as int, 0x2000),
            r.is_nemesis == is_nemesis,
    {
        let pages = count_pages(rom.len(), 0x2000);
        let r = Msx8kMapper { banks: [0; 4], rom, pages, is_nemesis };
        assert(r.banks@ =~= seq![0u8, 0u8, 0u8, 0u8]);
        r
    }

    pub fn read(&self, address: u16) -> (r: u8)
        ensures
            r == self.byte_at(address),
    {
        if address >= 0xC000 {
            return 0xFF;
        }
        let bank_idx: usize = if address < 0x8000 {
            (address / 0x2000) as usize
        } else {
            ((address - 0x8000) / 0x2000) as usize
        };
        let bank: u8 = if self.is_nemesis && bank_idx == 0 {
            if self.pages == 0 {
                255
            } else {
                ((self.pages - 1) % 256) as u8
            }
        } else {
            self.banks[bank_idx]
        };
        read_banked(&self.rom, self.pages, bank, 0x2000, (address % 0x2000) as usize)
    }

    /// A write: the first four addresses are the bank registers.
    pub fn write(&mut self, address: u16, value: u8)
        ensures
            final(self).rom == old(self).rom,
            final(self).pages == old(self).pages,
            final(self).is_nemesis == old(self).is_nemesis,
            final(self).banks@ == (if address <= 3 {
                old(self).banks@.update(address as int, value)
            } else {
                old(self).banks@
            }),
    {
        if address <= 0x0003 {
            self.banks[address as usize] = value;
        }
    }

    pub fn reset(&mut self)
        ensures
            final(self).banks@ == seq![0u8, 0u8, 0u8, 0u8],
            final(self).rom == old(self).rom,
            final(self).pages == old(self).pages,
            final(self).is_nemesis == old(self).is_nemesis,
    {
        self.banks = [0; 4];
        assert(self.banks@ =~= seq![0u8, 0u8, 0u8, 0u8]);
    }
}

pub struct Msx16kMapper {
    pub bank: u8,
    pub rom: Vec<u8>,
    pub pages: u16,
}

impl Msx16kMapper {
    /// The byte read at an address: all three slots read the one bank;
    /// from 0xC000 on, 0xFF.
    pub open spec fn byte_at(&self, address: u16) -> u8 {
        if address < 0xC000 {
            banked_byte(self.rom@, self.pages, self.bank as int, 0x4000, address as int % 0x4000)
        } else {
            0xFF
        }
    }

    pub fn new(rom: Vec<u8>) -> (r: Self)
        ensures
            r.bank == 0,
            r.rom == rom,
            r.pages == pages_of(rom@.len() as int, 0x4000),
    {
        let pages = count_pages(rom.len(), 0x4000);
        Msx16kMapper { bank: 0, rom, pages }
    }

    pub fn read(&self, address: u16) -> (r: u8)
        ensures
            r == self.byte_at(address),
    {
        if address < 0xC000 {
            read_banked(&self.rom, self.pages, self.bank, 0x4000, (address % 0x4000) as usize)
        } else {
            0xFF
        }
    }

    /// A write: any address from 0x8000 to 0xBFFF is the bank register.
    pub fn write(&mut self, address: u16, value: u8)
        ensures
            *final(self) == (Msx16kMapper {
                bank: if 0x8000 <= address < 0xC000 {
                    value
                } else {
                    old(self).bank
                },
                ..*old(self)
            }),
    {
        if 0x8000 <= address && address < 0xC000 {
            self.bank = value;
        }
    }

    pub fn reset(&mut self)
        ensures
            *final(self) == (Msx16kMapper { bank: 0, ..*old(self) }),
    {
        self.bank = 0;
    }
}

} // verus!
