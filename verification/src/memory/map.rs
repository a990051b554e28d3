//! The page map: which region answers each 64 KiB page of the bus.

use vstd::prelude::*;
use crate::bits::lemma_mask_u32;
use crate::memory::ADDRESS_MASK;

verus! {

/// Pages of 64 KiB on a 16 MiB bus.
pub const PAGE_COUNT: usize = 256;

#[derive(Clone, Copy, Debug, PartialEq, Eq, Structural)]
pub enum MemRegion {
    /// Cartridge ROM.
    Rom,
    /// Save memory.
    Sram,
    /// Z80 work memory.
    Zram,
    /// Z80 view of the cartridge.
    Zrom,
    /// Controller and expansion ports.
    Io,
    /// Video display processor.
    Vdp,
    /// Sound generator.
    Psg,
    /// Nothing answers.
    Unmapped,
}

/// What answers a page.
#[derive(Clone, Copy, Debug, PartialEq, Eq, Structural)]
pub struct MemoryHandler {
    pub region: MemRegion,
}

pub struct MemoryMap {
    pub handlers: [MemoryHandler; 256],
}

/// The page of an address.
pub open spec fn page_of(addr: u32) -> int {
    ((addr & ADDRESS_MASK) / 0x1_0000) as int
}

/// The pages that the addresses `start` to `end` touch.
pub open spec fn in_pages(page: int, start: u32, end: u32) -> bool {
    start as int / 0x1_0000 <= page <= end as int / 0x1_0000 && page < PAGE_COUNT
}

impl MemoryMap {
    /// A map on which nothing answers.
    pub fn new() -> (r: Self)
        ensures
            forall|p: int| 0 <= p < PAGE_COUNT ==> r.handlers[p].region == MemRegion::Unmapped,
    {
        MemoryMap { handlers: [MemoryHandler { region: MemRegion::Unmapped }; 256] }
    }

    /// Lets `handler` answer every page that the addresses `start` to
    /// `end` touch.
    pub fn map_region(&mut self, start: u32, end: u32, handler: MemoryHandler)
        ensures
            forall|p: int|
                0 <= p < PAGE_COUNT ==> final(self).handlers[p] == (if in_pages(p, start, end) {
                    handler
                } else {
                    old(self).handlers[p]
                }),
    {
        let page_start: usize = (start / 0x1_0000) as usize;
        let page_end: usize = (end / 0x1_0000) as usize;
        let mut page: usize = page_start;
        while page <= page_end && page < PAGE_COUNT
            invariant
                page_start <= page,
                page_start == start as int / 0x1_0000,
                page_end == end as int / 0x1_0000,
                forall|p: int|
                    0 <= p < PAGE_COUNT ==> self.handlers[p] == (if page_start <= p < page && p <= page_end {
                        handler
                    } else {
                        old(self).handlers[p]
                    }),
            decreases PAGE_COUNT - page,
        {
            self.handlers[page] = handler;
            page = page + 1;
        }
    }

    /// The handler of the page that an address lies in.
    pub fn get_handler(&self, addr: u32) -> (h: &MemoryHandler)
        ensures
            *h == self.handlers[page_of(addr)],
            0 <= page_of(addr) < PAGE_COUNT,
    {
        proof {
            lemma_mask_u32(addr, ADDRESS_MASK);
        }
        let page: usize = ((addr & ADDRESS_MASK) / 0x1_0000) as usize;
        &self.handlers[page]
    }
}

/// The handlers of the four 1 MiB blocks of cartridge ROM.
pub fn create_rom_handlers() -> (r: (MemoryHandler, MemoryHandler, MemoryHandler, MemoryHandler))
    ensures
        r.0.region == MemRegion::Rom,
        r.1.region == MemRegion::Rom,
        r.2.region == MemRegion::Rom,
        r.3.region == MemRegion::Rom,
{
    let handler = MemoryHandler { region: MemRegion::Rom };
    (handler, handler, handler, handler)
}

} // verus!
