//! The Korean mappers: one with four 8 KiB slots and scrambled data
//! lines, and two with 16 KiB slots.

use vstd::prelude::*;
use crate::mapper::sms::common::{banked_byte, read_banked};
use crate::mapper::sms::count_pages;
use crate::mapper::sms::pages_of;

verus! {

/// A byte with its bits in reverse order.
pub open spec fn reversed_bits(data: u8) -> u8 {
    ((data >> 7u8) & 0x01) | ((data >> 5u8) & 0x02) | ((data >> 3u8) & 0x04) | ((data >> 1u8) & 0x08) | ((data
        << 1u8) & 0x10) | ((data << 3u8) & 0x20) | ((data << 5u8) & 0x40) | ((data << 7u8) & 0x80)
}

/// Reverses the bits of a byte.
pub fn reverse_bits(data: u8) -> (r: u8)
    ensures
        r == reversed_bits(data),
{
    ((data >> 7u8) & 0x01) | ((data >> 5u8) & 0x02) | ((data >> 3u8) & 0x04) | ((data >> 1u8) & 0x08) | ((data
        << 1u8) & 0x10) | ((data << 3u8) & 0x20) | ((data << 5u8) & 0x40) | ((data << 7u8) & 0x80)
}

/// Reversing the bits twice gives the byte back.
pub proof fn lemma_reverse_twice(data: u8)
    by (bit_vector)
    ensures
        (((((data >> 7u8) & 0x01) | ((data >> 5u8) & 0x02) | ((data >> 3u8) & 0x04) | ((data >> 1u8) & 0x08) | ((data
            << 1u8) & 0x10) | ((data << 3u8) & 0x20) | ((data << 5u8) & 0x40) | ((data << 7u8) & 0x80)) >> 7u8)
            & 0x01) | (((((data >> 7u8) & 0x01) | ((data >> 5u8) & 0x02) | ((data >> 3u8) & 0x04) | ((data >> 1u8)
            & 0x08) | ((data << 1u8) & 0x10) | ((data << 3u8) & 0x20) | ((data << 5u8) & 0x40) | ((data << 7u8)
            & 0x80)) >> 5u8) & 0x02) | (((((data >> 7u8) & 0x01) | ((data >> 5u8) & 0x02) | ((data >> 3u8) & 0x04)
            | ((data >> 1u8) & 0x08) | ((data << 1u8) & 0x10) | ((data << 3u8) & 0x20) | ((data << 5u8) & 0x40) | ((
        data << 7u8) & 0x80)) >> 3u8) & 0x04) | (((((data >> 7u8) & 0x01) | ((data >> 5u8) & 0x02) | ((data >> 3u8)
            & 0x04) | ((data >> 1u8) & 0x08) | ((data << 1u8) & 0x10) | ((data << 3u8) & 0x20) | ((data << 5u8)
            & 0x40) | ((data << 7u8) & 0x80)) >> 1u8) & 0x08) | (((((data >> 7u8) & 0x01) | ((data >> 5u8) & 0x02)
            | ((data >> 3u8) & 0x04) | ((data >> 1u8) & 0x08) | ((data << 1u8) & 0x10) | ((data << 3u8) & 0x20) | ((
        data << 5u8) & 0x40) | ((data << 7u8) & 0x80)) << 1u8) & 0x10) | (((((data >> 7u8) & 0x01) | ((data >> 5u8)
            & 0x02) | ((data >> 3u8) & 0x04) | ((data >> 1u8) & 0x08) | ((data << 1u8) & 0x10) | ((data << 3u8)
            & 0x20) | ((data << 5u8) & 0x40) | ((data << 7u8) & 0x80)) << 3u8) & 0x20) | (((((data >> 7u8) & 0x01)
            | ((data >> 5u8) & 0x02) | ((data >> 3u8) & 0x04) | ((data >> 1u8) & 0x08) | ((data << 1u8) & 0x10) | ((
        data << 3u8) & 0x20) | ((data << 5u8) & 0x40) | ((data << 7u8) & 0x80)) << 5u8) & 0x40) | (((((data >> 7u8)
            & 0x01) | ((data >> 5u8) & 0x02) | ((data >> 3u8) & 0x04) | ((data >> 1u8) & 0x08) | ((data << 1u8)
            & 0x10) | ((data << 3u8) & 0x20) | ((data << 5u8) & 0x40) | ((data << 7u8) & 0x80)) << 7u8) & 0x80)
            == data,
{
}

/// The bank register that an address reads through: the four 8 KiB
/// slots below 0x8000 have one each, and the two above share the first
/// two.
pub open spec fn slot_8k(address: u16) -> int {
    if address < 0x8000 {
        address as int / 0x2000
    } else {
        (address - 0x8000) / 0x2000
    }
}

pub struct Korean8kMapper {
    pub banks: [u8; 4],
    pub rom: Vec<u8>,
    pub pages: u16,
    /// The slot's data lines are scrambled.
    pub protected: [bool; 4],
}

impl Korean8kMapper {
    /// The byte read at an address: the byte of the slot's bank, its
    /// bits reversed where the slot is protected; from 0xC000 on, 0xFF.
    pub open spec fn byte_at(&self, address: u16) -> u8 {
        if address >= 0xC000 {
            0xFF
        } else {
            let data = banked_byte(
                self.rom@,
                self.pages,
                self.banks[slot_8k(address)] as int,
                0x2000,
                address as int % 0x2000,
            );
            if self.protected[slot_8k(address)] {
                reversed_bits(data)
            } else {
                data
            }
        }
    }

    pub fn new(rom: Vec<u8>) -> (r: Self)
        ensures
            r.banks@ == seq![0u8, 0u8, 0u8, 0u8],
            r.rom == rom,
            r.pages == pages_of(rom@.len() as int, 0x2000),
            r.protected@ == seq![false, false, false, false],
    {
        let pages = count_pages(rom.len(), 0x2000);
        let r = Korean8kMapper { banks: [0; 4], rom, pages, protected: [false; 4] };
        assert(r.banks@ =~= seq![0u8, 0u8, 0u8, 0u8]);
        assert(r.protected@ =~= seq![false, false, false, false]);
        r
    }

    pub fn read(&self, address: u16) -> (r: u8)
        ensures
            r == self.byte_at(address),
    {
        if address >= 0xC000 {
            return 0xFF;
        }
        let bank_idx: usize = if address < 0x8000 {
            (address / 0x2000) as usize
        } else {
            ((address - 0x8000) / 0x2000) as usize
        };
        let data = read_banked(&self.rom, self.pages, self.banks[bank_idx], 0x2000, (address % 0x2000) as usize);
        if self.protected[bank_idx] {
            reverse_bits(data)
        } else {
            data
        }
    }

    /// A write: 0x4000 and 0x6000 set the banks of the upper two slots;
    /// 0x8000 and 0xA000 set those of the lower two, with bit 7 for the
    /// scrambling; 0xFFFE and 0xFFFF set a pair of banks to twice the
    /// value and the bank after.
    pub fn write(&mut self, address: u16, value: u8)
        ensures
            final(self).rom == old(self).rom,
            final(self).pages == old(self).pages,
            final(self).banks@ == (if address == 0x4000 {
                old(self).banks@.update(2, value)
            } else if address == 0x6000 {
                old(self).banks@.update(3, value)
            } else if address == 0x8000 {
                old(self).banks@.update(0, value)
            } else if address == 0xA000 {
                old(self).banks@.update(1, value)
            } else if address == 0xFFFE {
                old(self).banks@.update(2, value << 1u8).update(3, (value << 1u8) | 1)
            } else if address == 0xFFFF {
                old(self).banks@.update(0, value << 1u8).update(1, (value << 1u8) | 1)
            } else {
                old(self).banks@
            }),
            final(self).protected@ == (if address == 0x8000 {
                old(self).protected@.update(0, value >= 0x80)
            } else if address == 0xA000 {
                old(self).protected@.update(1, value >= 0x80)
            } else {
                old(self).protected@
            }),
    {
        if address == 0x4000 {
            self.banks[2] = value;
        } else if address == 0x6000 {
            self.banks[3] = value;
        } else if address == 0x8000 {
            self.banks[0] = value;
            self.protected[0] = value >= 0x80;
        } else if address == 0xA000 {
            self.banks[1] = value;
            self.protected[1] = value >= 0x80;
        } else if address == 0xFFFE {
            self.banks[2] = value << 1u8;
            self.banks[3] = (value << 1u8) | 1;
        } else if address == 0xFFFF {
            self.banks[0] = value << 1u8;
            self.banks[1] = (value << 1u8) | 1;
        }
    }

    pub fn reset(&mut self)
        ensures
            final(self).banks@ == seq![0u8, 0u8, 0u8, 0u8],
            final(self).protected@ == seq![false, false, false, false],
            final(self).rom == old(self).rom,
            final(self).pages == old(self).pages,
    {
        self.banks = [0; 4];
        self.protected = [false; 4];
        assert(self.banks@ =~= seq![0u8, 0u8, 0u8, 0u8]);
        assert(self.protected@ =~= seq![false, false, false, false]);
    }
}

pub struct Korean16kV1Mapper {
    pub bank: u8,
    pub rom: Vec<u8>,
    pub pages: u16,
}

impl Korean16kV1Mapper {
    /// The byte read at an address: all three slots read the one bank;
    /// from 0xC000 on, 0xFF.
    pub open spec fn byte_at(&self, address: u16) -> u8 {
        if address < 0xC000 {
            banked_byte(self.rom@, self.pages, self.bank as int, 0x4000, address as int % 0x4000)
        } else {
            0xFF
        }
    }

    pub fn new(rom: Vec<u8>) -> (r: Self)
        ensures
            r.bank == 0,
            r.rom == rom,
            r.pages == pages_of(rom@.len() as int, 0x4000),
    {
        let pages = count_pages(rom.len(), 0x4000);
        Korean16kV1Mapper { bank: 0, rom, pages }
    }

    pub fn read(&self, address: u16) -> (r: u8)
        ensures
            r == self.byte_at(address),
    {
        if address < 0xC000 {
            read_banked(&self.rom, self.pages, self.bank, 0x4000, (address % 0x4000) as usize)
        } else {
            0xFF
        }
    }

    /// A write: 0xA000 is the bank register.
    pub fn write(&mut self, address: u16, value: u8)
        ensures
            *final(self) == (Korean16kV1Mapper {
                bank: if address == 0xA000 {
                    value
                } else {
                    old(self).bank
                },
                ..*old(self)
            }),
    {
        if address == 0xA000 {
            self.bank = value;
        }
    }

    pub fn reset(&mut self)
        ensures
            *final(self) == (Korean16kV1Mapper { bank: 0, ..*old(self) }),
    {
        self.bank = 0;
    }
}

pub struct Korean16kV2Mapper {
    pub banks: [u8; 2],
    pub rom: Vec<u8>,
    pub pages: u16,
}

impl Korean16kV2Mapper {
    /// The byte read at an address: the first slot reads the first
    /// bank, the two above the second; from 0xC000 on, 0xFF.
    pub open spec fn byte_at(&self, address: u16) -> u8 {
        if address < 0x4000 {
            banked_byte(self.rom@, self.pages, self.banks[0] as int, 0x4000, address as int)
        } else if address < 0xC000 {
            banked_byte(self.rom@, self.pages, self.banks[1] as int, 0x4000, address as int % 0x4000)
        } else {
            0xFF
        }
    }

    pub fn new(rom: Vec<u8>) -> (r: Self)
        ensures
            r.banks@ == seq![0u8, 0u8],
            r.rom == rom,
            r.pages == pages_of(rom@.len() as int, 0x4000),
    {
        let pages = count_pages(rom.len(), 0x4000);
        let r = Korean16kV2Mapper { banks: [0, 0], rom, pages };
        assert(r.banks@ =~= seq![0u8, 0u8]);
        r
    }

    pub fn read(&self, address: u16) -> (r: u8)
        ensures
            r == self.byte_at(address),
    {
        if address < 0x4000 {
            read_banked(&self.rom, self.pages, self.banks[0], 0x4000, address as usize)
        } else if address < 0xC000 {
            read_banked(&self.rom, self.pages, self.banks[1], 0x4000, (address % 0x4000) as usize)
        } else {
            0xFF
        }
    }

    /// A write: 0x4000 and 0xFFFE set the first bank, 0x8000 and 0xFFFF
    /// the second.
    pub fn write(&mut self, address: u16, value: u8)
        ensures
            final(self).rom == old(self).rom,
            final(self).pages == old(self).pages,
            final(self).banks@ == (if address == 0x4000 || address == 0xFFFE {
                old(self).banks@.update(0, value)
            } else if address == 0x8000 || address == 0xFFFF {
                old(self).banks@.update(1, value)
            } else {
                old(self).banks@
            }),
    {
        if address == 0x4000 || address == 0xFFFE {
            self.banks[0] = value;
        } else if address == 0x8000 || address == 0xFFFF {
            self.banks[1] = value;
        }
    }

    pub fn reset(&mut self)
        ensures
            final(self).banks@ == seq![0u8, 0u8],
            final(self).rom == old(self).rom,
            final(self).pages == old(self).pages,
    {
        self.banks = [0, 0];
        assert(self.banks@ =~= seq![0u8, 0u8]);
    }
}

} // verus!
