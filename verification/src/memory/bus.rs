//! The main bus: every read and write of the 68000 goes through here.

use vstd::prelude::*;
use crate::bits::{lo_byte, hi_byte, word_of, low_byte, high_byte, make_word};
use crate::memory::cart::Cartridge;
use crate::memory::map::{create_rom_handlers, page_of, MemRegion, MemoryHandler, MemoryMap, PAGE_COUNT};
use crate::memory::{MemoryResult, ADDRESS_MASK};

verus! {

pub struct MemoryBus {
    pub cart: Option<Cartridge>,
    pub map: MemoryMap,
    pub zram: [u8; 8192],
    pub ioports: [u8; 256],
    pub vram: [u16; 65536],
    pub cram: [u16; 64],
    pub vsram: [u16; 40],
    pub genesis_mode: bool,
    pub tmss_enabled: bool,
    pub tmss_reg: u8,
    pub cycles: u64,
}

/// An address cut to the bus's 24 lines.
pub open spec fn bus_addr(addr: u32) -> u32 {
    addr & ADDRESS_MASK
}

/// The address after `addr`, wrapping at 32 bits.
pub open spec fn next_addr(addr: u32) -> u32 {
    if addr == u32::MAX {
        0
    } else {
        (addr + 1) as u32
    }
}

/// The region that the standard layout gives a page: ROM in the first
/// 4 MiB, Z80 memory at 0xA0, the ports at 0xA1, the VDP at 0xC0.
pub open spec fn standard_region(page: int) -> MemRegion {
    if page < 0x40 {
        MemRegion::Rom
    } else if page == 0xA0 {
        MemRegion::Zram
    } else if page == 0xA1 {
        MemRegion::Io
    } else if page == 0xC0 {
        MemRegion::Vdp
    } else {
        MemRegion::Unmapped
    }
}

impl MemoryBus {
    /// The region that answers an address.
    pub open spec fn region_at(&self, addr: u32) -> MemRegion {
        self.map.handlers[page_of(addr)].region
    }

    /// The byte that a region gives at a masked address: ROM through the
    /// cartridge (0xFF without one), Z80 memory and the ports from their
    /// arrays, 0 from the VDP, and 0xFF where nothing answers.
    pub open spec fn region_byte(&self, region: MemRegion, masked: u32) -> u8 {
        match region {
            MemRegion::Rom => match self.cart {
                Some(c) => c.rom_byte(masked),
                None => 0xFF,
            },
            MemRegion::Zram => self.zram[(masked % 0x2000) as int],
            MemRegion::Io => self.ioports[(masked % 0x20) as int],
            MemRegion::Vdp => 0,
            _ => 0xFF,
        }
    }

    /// The byte read at an address.
    pub open spec fn byte_at(&self, addr: u32) -> u8 {
        self.region_byte(self.region_at(addr), bus_addr(addr))
    }

    /// The word that a region gives at an even masked address,
    /// little-endian; the last byte of Z80 memory has no word, nor has
    /// the VDP more than 0.
    pub open spec fn region_word(&self, region: MemRegion, masked: u32) -> u16 {
        match region {
            MemRegion::Rom => match self.cart {
                Some(c) => word_of(c.rom_byte(masked), c.rom_byte(next_addr(masked))),
                None => 0xFFFF,
            },
            MemRegion::Zram => if masked % 0x2000 < 8191 {
                word_of(self.zram[(masked % 0x2000) as int], self.zram[(masked % 0x2000) as int + 1])
            } else {
                0xFFFF
            },
            MemRegion::Io => word_of(self.ioports[(masked % 0x20) as int], self.ioports[(masked % 0x20) as int + 1]),
            MemRegion::Vdp => 0,
            _ => 0xFFFF,
        }
    }

    /// The word read at an address. At an odd address it is made of the
    /// two bytes that the address's own region gives.
    pub open spec fn word_at(&self, addr: u32) -> u16 {
        let masked = bus_addr(addr);
        let region = self.region_at(addr);
        if masked % 2 == 1 {
            word_of(self.region_byte(region, masked), self.region_byte(region, next_addr(masked)))
        } else {
            self.region_word(region, masked)
        }
    }

    /// A bus with nothing on it.
    pub fn new() -> (r: Self)
        ensures
            r.cart is None,
            forall|p: int| 0 <= p < PAGE_COUNT ==> r.map.handlers[p].region == MemRegion::Unmapped,
            forall|i: int| 0 <= i < 8192 ==> r.zram[i] == 0,
            forall|i: int| 0 <= i < 256 ==> r.ioports[i] == 0,
            forall|i: int| 0 <= i < 65536 ==> r.vram[i] == 0,
            forall|i: int| 0 <= i < 64 ==> r.cram[i] == 0,
            forall|i: int| 0 <= i < 40 ==> r.vsram[i] == 0,
            r.genesis_mode,
            !r.tmss_enabled,
            r.tmss_reg == 0,
            r.cycles == 0,
    {
        MemoryBus {
            cart: None,
            map: MemoryMap::new(),
            zram: [0; 8192],
            ioports: [0; 256],
            vram: [0; 65536],
            cram: [0; 64],
            vsram: [0; 40],
            genesis_mode: true,
            tmss_enabled: false,
            tmss_reg: 0,
            cycles: 0,
        }
    }

    /// Puts a cartridge on the bus and lays out the standard map.
    pub fn init(&mut self, cart: Cartridge) -> (r: MemoryResult<()>)
        ensures
            r is Ok,
            final(self).cart == Some(cart),
            forall|p: int| 0 <= p < PAGE_COUNT ==> final(self).map.handlers[p].region == standard_region(p)
                || (standard_region(p) == MemRegion::Unmapped && final(self).map.handlers[p] == old(self).map.handlers[p]),
            final(self).zram == old(self).zram,
            final(self).ioports == old(self).ioports,
            final(self).cycles == old(self).cycles,
    {
        self.cart = Some(cart);
        self.setup_memory_map()
    }

    fn setup_memory_map(&mut self) -> (r: MemoryResult<()>)
        ensures
            r is Ok,
            forall|p: int| 0 <= p < PAGE_COUNT ==> final(self).map.handlers[p].region == standard_region(p)
                || (standard_region(p) == MemRegion::Unmapped && final(self).map.handlers[p] == old(self).map.handlers[p]),
            *final(self) == (MemoryBus { map: final(self).map, ..*old(self) }),
    {
        let (rom0, rom1, rom2, rom3) = create_rom_handlers();
        self.map.map_region(0x00_0000, 0x0F_FFFF, rom0);
        self.map.map_region(0x10_0000, 0x1F_FFFF, rom1);
        self.map.map_region(0x20_0000, 0x2F_FFFF, rom2);
        self.map.map_region(0x30_0000, 0x3F_FFFF, rom3);
        self.map.map_region(0xA0_0000, 0xA0_1FFF, MemoryHandler { region: MemRegion::Zram });
        self.map.map_region(0xA1_0000, 0xA1_001F, MemoryHandler { region: MemRegion::Io });
        self.map.map_region(0xC0_0000, 0xC0_001F, MemoryHandler { region: MemRegion::Vdp });
        Ok(())
    }

    fn read_region_byte(&self, region: MemRegion, masked: u32) -> (r: u8)
        ensures
            r == self.region_byte(region, masked),
    {
        match region {
            MemRegion::Rom => match &self.cart {
                Some(c) => c.read_rom(masked),
                None => 0xFF,
            },
            MemRegion::Zram => self.read_zram(masked),
            MemRegion::Io => self.read_io(masked),
            MemRegion::Vdp => self.read_vdp(masked),
            _ => 0xFF,
        }
    }

    /// Reads a byte.
    pub fn read_byte(&self, addr: u32) -> (r: u8)
        ensures
            r == self.byte_at(addr),
    {
        let masked = addr & ADDRESS_MASK;
        let region = self.map.get_handler(masked).region;
        proof {
            lemma_mask_twice(addr);
        }
        self.read_region_byte(region, masked)
    }

    /// Reads a word. Odd addresses are allowed and read byte by byte.
    pub fn read_word(&self, addr: u32) -> (r: u16)
        ensures
            r == self.word_at(addr),
    {
        let masked = addr & ADDRESS_MASK;
        let region = self.map.get_handler(masked).region;
        proof {
            lemma_mask_twice(addr);
        }
        if masked % 2 == 1 {
            let low = self.read_region_byte(region, masked);
            let high = self.read_region_byte(region, masked.wrapping_add(1));
            make_word(low, high)
        } else {
            match region {
                MemRegion::Rom => match &self.cart {
                    Some(c) => make_word(c.read_rom(masked), c.read_rom(masked.wrapping_add(1))),
                    None => 0xFFFF,
                },
                MemRegion::Zram => self.read_zram_word(masked),
                MemRegion::Io => self.read_io_word(masked),
                MemRegion::Vdp => self.read_vdp_word(masked),
                _ => 0xFFFF,
            }
        }
    }

    /// Writes a byte. ROM, the VDP and unmapped pages ignore writes.
    pub fn write_byte(&mut self, addr: u32, value: u8)
        ensures
            old(self).region_at(addr) == MemRegion::Zram ==> *final(self) == (MemoryBus {
                zram: final(self).zram,
                ..*old(self)
            }) && final(self).zram@ == old(self).zram@.update((bus_addr(addr) % 0x2000) as int, value),
            old(self).region_at(addr) == MemRegion::Io ==> *final(self) == (MemoryBus {
                ioports: final(self).ioports,
                ..*old(self)
            }) && final(self).ioports@ == old(self).ioports@.update((bus_addr(addr) % 0x20) as int, value),
            old(self).region_at(addr) != MemRegion::Zram && old(self).region_at(addr) != MemRegion::Io ==> *final(self) == *old(self),
    {
        let masked = addr & ADDRESS_MASK;
        let region = self.map.get_handler(masked).region;
        proof {
            lemma_mask_twice(addr);
        }
        match region {
            MemRegion::Zram => self.write_zram(masked, value),
            MemRegion::Io => self.write_io(masked, value),
            MemRegion::Vdp => self.write_vdp(masked, value),
            _ => {},
        }
    }

    /// Writes a word, low byte first.
    pub fn write_word(&mut self, addr: u32, value: u16)
        ensures
            old(self).region_at(addr) == MemRegion::Zram && bus_addr(addr) % 0x2000 < 8191 ==> *final(self) == (
            MemoryBus { zram: final(self).zram, ..*old(self) }) && final(self).zram@ == old(self).zram@.update(
                (bus_addr(addr) % 0x2000) as int,
                lo_byte(value),
            ).update((bus_addr(addr) % 0x2000) as int + 1, hi_byte(value)),
            old(self).region_at(addr) == MemRegion::Io ==> *final(self) == (MemoryBus {
                ioports: final(self).ioports,
                ..*old(self)
            }) && final(self).ioports@ == old(self).ioports@.update(
                (bus_addr(addr) % 0x20) as int,
                lo_byte(value),
            ).update((bus_addr(addr) % 0x20) as int + 1, hi_byte(value)),
            old(self).region_at(addr) != MemRegion::Zram && old(self).region_at(addr) != MemRegion::Io ==> *final(self) == *old(self),
            old(self).region_at(addr) == MemRegion::Zram && bus_addr(addr) % 0x2000 == 8191 ==> *final(self)
                == *old(self),
    {
        let masked = addr & ADDRESS_MASK;
        let region = self.map.get_handler(masked).region;
        proof {
            lemma_mask_twice(addr);
        }
        match region {
            MemRegion::Zram => self.write_zram_word(masked, value),
            MemRegion::Io => self.write_io_word(masked, value),
            MemRegion::Vdp => self.write_vdp_word(masked, value),
            _ => {},
        }
    }

    fn read_zram(&self, addr: u32) -> (r: u8)
        ensures
            r == self.zram[(addr % 0x2000) as int],
    {
        let offset: usize = (addr % 0x2000) as usize;
        self.zram[offset]
    }

    fn read_zram_word(&self, addr: u32) -> (r: u16)
        ensures
            r == (if addr % 0x2000 < 8191 {
                word_of(self.zram[(addr % 0x2000) as int], self.zram[(addr % 0x2000) as int + 1])
            } else {
                0xFFFFu16
            }),
    {
        let offset: usize = (addr % 0x2000) as usize;
        if offset < 8191 {
            make_word(self.zram[offset], self.zram[offset + 1])
        } else {
            0xFFFF
        }
    }

    fn write_zram(&mut self, addr: u32, value: u8)
        ensures
            *final(self) == (MemoryBus { zram: final(self).zram, ..*old(self) }),
            final(self).zram@ == old(self).zram@.update((addr % 0x2000) as int, value),
    {
        let offset: usize = (addr % 0x2000) as usize;
        self.zram[offset] = value;
    }

    fn write_zram_word(&mut self, addr: u32, value: u16)
        ensures
            *final(self) == (MemoryBus { zram: final(self).zram, ..*old(self) }),
            addr % 0x2000 < 8191 ==> final(self).zram@ == old(self).zram@.update(
                (addr % 0x2000) as int,
                lo_byte(value),
            ).update((addr % 0x2000) as int + 1, hi_byte(value)),
            addr % 0x2000 == 8191 ==> final(self).zram == old(self).zram,
    {
        let offset: usize = (addr % 0x2000) as usize;
        if offset < 8191 {
            self.zram[offset] = low_byte(value);
            self.zram[offset + 1] = high_byte(value);
        }
    }

    fn read_io(&self, addr: u32) -> (r: u8)
        ensures
            r == self.ioports[(addr % 0x20) as int],
    {
        let offset: usize = (addr % 0x20) as usize;
        self.ioports[offset]
    }

    fn read_io_word(&self, addr: u32) -> (r: u16)
        ensures
            r == word_of(self.ioports[(addr % 0x20) as int], self.ioports[(addr % 0x20) as int + 1]),
    {
        let offset: usize = (addr % 0x20) as usize;
        make_word(self.ioports[offset], self.ioports[offset + 1])
    }

    fn write_io(&mut self, addr: u32, value: u8)
        ensures
            *final(self) == (MemoryBus { ioports: final(self).ioports, ..*old(self) }),
            final(self).ioports@ == old(self).ioports@.update((addr % 0x20) as int, value),
    {
        let offset: usize = (addr % 0x20) as usize;
        self.ioports[offset] = value;
    }

    fn write_io_word(&mut self, addr: u32, value: u16)
        ensures
            *final(self) == (MemoryBus { ioports: final(self).ioports, ..*old(self) }),
            final(self).ioports@ == old(self).ioports@.update((addr % 0x20) as int, lo_byte(value)).update(
                (addr % 0x20) as int + 1,
                hi_byte(value),
            ),
    {
        let offset: usize = (addr % 0x20) as usize;
        self.ioports[offset] = low_byte(value);
        self.ioports[offset + 1] = high_byte(value);
    }

    /// The VDP lives elsewhere; its window on this bus reads as 0.
    fn read_vdp(&self, addr: u32) -> (r: u8)
        ensures
            r == 0,
    {
        0
    }

    fn read_vdp_word(&self, addr: u32) -> (r: u16)
        ensures
            r == 0,
    {
        0
    }

    fn write_vdp(&mut self, addr: u32, value: u8)
        ensures
            *final(self) == *old(self),
    {
    }

    fn write_vdp_word(&mut self, addr: u32, value: u16)
        ensures
            *final(self) == *old(self),
    {
    }

    /// Advances the cycle counter, which wraps at 64 bits.
    pub fn add_cycles(&mut self, cycles: u32)
        ensures
            *final(self) == (MemoryBus {
                cycles: ((old(self).cycles + cycles) % 0x1_0000_0000_0000_0000) as u64,
                ..*old(self)
            }),
    {
        self.cycles = self.cycles.wrapping_add(cycles as u64);
    }

    /// Zeroes the memories on the bus and the cycle counter. The map and
    /// the cartridge stay.
    pub fn reset(&mut self)
        ensures
            final(self).cart == old(self).cart,
            final(self).map == old(self).map,
            final(self).genesis_mode == old(self).genesis_mode,
            final(self).tmss_enabled == old(self).tmss_enabled,
            final(self).tmss_reg == old(self).tmss_reg,
            forall|i: int| 0 <= i < 8192 ==> final(self).zram[i] == 0,
            forall|i: int| 0 <= i < 256 ==> final(self).ioports[i] == 0,
            forall|i: int| 0 <= i < 65536 ==> final(self).vram[i] == 0,
            forall|i: int| 0 <= i < 64 ==> final(self).cram[i] == 0,
            forall|i: int| 0 <= i < 40 ==> final(self).vsram[i] == 0,
            final(self).cycles == 0,
    {
        self.zram = [0; 8192];
        self.ioports = [0; 256];
        self.vram = [0; 65536];
        self.cram = [0; 64];
        self.vsram = [0; 40];
        self.cycles = 0;
    }
}

/// Masking a masked address changes nothing.
pub proof fn lemma_mask_twice(addr: u32)
    by (bit_vector)
    ensures
        (addr & 0x00FF_FFFF) & 0x00FF_FFFF == addr & 0x00FF_FFFF,
{
}

} // verus!
