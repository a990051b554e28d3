//! The address decoder of a 32X cartridge.

use vstd::prelude::*;
use crate::memory::cart::{covering_mask, covering_mask_from};

verus! {

/// Size of a ROM bank.
pub const BANK_SIZE: u32 = 0x2_0000;

/// Number of the register that switches the 32X mode.
pub const MODE_REGISTER: u8 = 0xA1;

/// What answers an address.
#[derive(Clone, Copy, Debug, PartialEq, Eq, Structural)]
pub enum ComponentType {
    Rom,
    Sram,
    /// The communication registers, 0xA15100 to 0xA1511F.
    Communication,
    /// The frame buffer window, 0xA15180 to 0xA151FF.
    Framebuffer,
    Dram,
    /// The boot ROM, 0x400000 to 0x400FFF.
    BootRom,
}

#[derive(Clone, Copy, Debug, PartialEq, Eq, Structural)]
pub enum AccessType {
    Read,
    Write,
}

/// An address inside a component.
#[derive(Clone, Copy, Debug, PartialEq, Eq, Structural)]
pub struct MappedAddress {
    pub addr: u32,
    pub component: ComponentType,
}

/// The boards that a cartridge can be.
#[derive(Clone, Copy, Debug, PartialEq, Eq, Structural)]
pub enum CartridgeType {
    MegaDrive,
    Sega32XStandard,
    Sega32XROM,
    Sega32XRAM,
}

#[derive(Clone, Copy, Debug, PartialEq, Eq, Structural)]
pub enum CartridgeError {
    InvalidRom,
    /// No decoder exists for this board.
    UnsupportedHardware(CartridgeType),
}

/// The decoder as a value.
pub struct DecoderState {
    pub mask: u32,
    pub banks: Seq<u32>,
    pub mode_32x: bool,
}

/// The mask of a ROM of `size` bytes: the least `2^k - 1` that covers
/// it, cut to 32 bits.
pub open spec fn decoder_mask(size: int) -> u32 {
    if size > 0x8000_0000 {
        0xFFFF_FFFFu32
    } else {
        covering_mask(size) as u32
    }
}

/// The start of a bank that holds the 128 KiB block `value`.
pub open spec fn bank_start(value: int) -> u32 {
    (value * 0x2_0000) as u32
}

impl DecoderState {
    pub open spec fn valid(self) -> bool {
        self.banks.len() == 8 && forall|i: int| 0 <= i < 8 ==> #[trigger] self.banks[i] <= 0x1FE_0000
    }

    /// The decoder of a ROM of `size` bytes at power-on: the banks in
    /// order, the 32X mode off.
    pub open spec fn fresh(size: int) -> Self {
        DecoderState { mask: decoder_mask(size), banks: Seq::new(8, |i: int| bank_start(i)), mode_32x: false }
    }

    pub open spec fn after_reset(self) -> Self {
        DecoderState { banks: Seq::new(8, |i: int| bank_start(i)), mode_32x: false, ..self }
    }

    /// Where an address leads. Addresses wrap at 24 bits. Below 4 MiB
    /// lies the ROM: in 32X mode its upper half shows the lower one,
    /// else each 128 KiB block shows its bank.
    pub open spec fn mapped(self, addr: u32) -> MappedAddress {
        let masked = addr % 0x100_0000;
        if masked <= 0x3F_FFFF {
            if self.mode_32x && masked >= 0x20_0000 {
                MappedAddress { addr: (masked % 0x20_0000) as u32, component: ComponentType::Rom }
            } else {
                MappedAddress {
                    addr: ((self.banks[((masked / 0x2_0000) % 8) as int] + masked % 0x2_0000) as u32) & self.mask,
                    component: ComponentType::Rom,
                }
            }
        } else if 0xA1_5100 <= masked <= 0xA1_511F {
            MappedAddress { addr: (masked - 0xA1_5100) as u32, component: ComponentType::Communication }
        } else if 0xA1_5180 <= masked <= 0xA1_51FF {
            MappedAddress { addr: (masked - 0xA1_5180) as u32, component: ComponentType::Framebuffer }
        } else if 0x40_0000 <= masked <= 0x40_0FFF {
            MappedAddress { addr: (masked - 0x40_0000) as u32, component: ComponentType::BootRom }
        } else {
            MappedAddress { addr: masked & self.mask, component: ComponentType::Rom }
        }
    }

    /// The decoder after a register was written: the mode register
    /// takes the mode from bit 7, registers 0 to 7 take a bank.
    pub open spec fn written(self, reg: u8, value: u8) -> Self {
        if reg == MODE_REGISTER {
            DecoderState { mode_32x: value >= 0x80, ..self }
        } else if reg <= 7 {
            DecoderState { banks: self.banks.update(reg as int, bank_start(value as int)), ..self }
        } else {
            self
        }
    }
}

/// The decoder of the standard 32X board.
pub struct Standard32XMapper {
    rom_mask: u32,
    rom_banks: [u32; 8],
    is_32x_mode: bool,
}

impl View for Standard32XMapper {
    type V = DecoderState;

    closed spec fn view(&self) -> DecoderState {
        DecoderState { mask: self.rom_mask, banks: self.rom_banks@, mode_32x: self.is_32x_mode }
    }
}

/// The mask that covers a ROM of `size` bytes.
pub fn mask_for(size: usize) -> (m: u32)
    ensures
        m == decoder_mask(size as int),
{
    if size > 0x8000_0000 {
        return 0xFFFF_FFFF;
    }
    let mut m: u32 = 0;
    while (m as u64) + 1 < (size as u64)
        invariant
            size <= 0x8000_0000,
            covering_mask_from(size as int, m as int) == covering_mask(size as int),
        decreases (if size > m {
            size - m
        } else {
            0
        }),
    {
        m = 2 * m + 1;
    }
    m
}

impl Standard32XMapper {
    pub fn new(rom_size: usize) -> (r: Self)
        ensures
            r@ == DecoderState::fresh(rom_size as int),
            r@.valid(),
    {
        let rom_mask = mask_for(rom_size);
        let mut r = Standard32XMapper { rom_mask, rom_banks: [0;8], is_32x_mode: false };
        r.reset();
        assert(r@.banks =~= DecoderState::fresh(rom_size as int).banks);
        r
    }

    pub fn map_address(&self, addr: u32, access: AccessType) -> (r: MappedAddress)
        requires
            self@.valid(),
        ensures
            r == self@.mapped(addr),
    {
        let masked: u32 = addr % 0x100_0000;
        if masked <= 0x3F_FFFF {
            if self.is_32x_mode && masked >= 0x20_0000 {
                MappedAddress { addr: masked % 0x20_0000, component: ComponentType::Rom }
            } else {
                let bank: usize = ((masked / 0x2_0000) % 8) as usize;
                let offset: u32 = masked % 0x2_0000;
                assert(self@.banks[bank as int] <= 0x1FE_0000);
                MappedAddress { addr: (self.rom_banks[bank] + offset) & self.rom_mask, component: ComponentType::Rom }
            }
        } else if 0xA1_5100 <= masked && masked <= 0xA1_511F {
            MappedAddress { addr: masked - 0xA1_5100, component: ComponentType::Communication }
        } else if 0xA1_5180 <= masked && masked <= 0xA1_51FF {
            MappedAddress { addr: masked - 0xA1_5180, component: ComponentType::Framebuffer }
        } else if 0x40_0000 <= masked && masked <= 0x40_0FFF {
            MappedAddress { addr: masked - 0x40_0000, component: ComponentType::BootRom }
        } else {
            MappedAddress { addr: masked & self.rom_mask, component: ComponentType::Rom }
        }
    }

    pub fn write_register(&mut self, reg: u8, value: u8)
        requires
            old(self)@.valid(),
        ensures
            final(self)@ == old(self)@.written(reg, value),
            final(self)@.valid(),
    {
        if reg == MODE_REGISTER {
            self.is_32x_mode = value >= 0x80;
        } else if reg <= 7 {
            self.rom_banks[reg as usize] = (value as u32) * BANK_SIZE;
            assert(self@.banks =~= old(self)@.banks.update(reg as int, bank_start(value as int)));
        }
    }

    pub fn reset(&mut self)
        ensures
            final(self)@ == old(self)@.after_reset(),
            final(self)@.valid(),
    {
        self.is_32x_mode = false;
        let mut i: usize = 0;
        while i < 8
            invariant
                i <= 8,
                !self.is_32x_mode,
                self.rom_mask == old(self).rom_mask,
                forall|k: int| 0 <= k < i ==> #[trigger] self.rom_banks[k] == bank_start(k),
            decreases 8 - i,
        {
            self.rom_banks[i] = (i as u32) * BANK_SIZE;
            i = i + 1;
        }
        assert(self@.banks =~= old(self)@.after_reset().banks);
    }

    pub fn get_component_type(&self, addr: u32) -> (r: ComponentType)
        requires
            self@.valid(),
        ensures
            r == self@.mapped(addr).component,
    {
        self.map_address(addr, AccessType::Read).component
    }
}

/// The boards that the standard decoder serves.
pub open spec fn is_32x_board(cart_type: CartridgeType) -> bool {
    cart_type == CartridgeType::Sega32XStandard || cart_type == CartridgeType::Sega32XROM || cart_type
        == CartridgeType::Sega32XRAM
}

/// The decoder of a board: the 32X boards have the standard one, the
/// others none.
pub fn create_mapper(cart_type: CartridgeType, rom_size: usize) -> (r: Result<Standard32XMapper, CartridgeError>)
    ensures
        is_32x_board(cart_type) ==> r is Ok && r->Ok_0@ == DecoderState::fresh(rom_size as int) && r->Ok_0@.valid(),
        !is_32x_board(cart_type) ==> r is Err && r->Err_0 == CartridgeError::UnsupportedHardware(cart_type),
{
    match cart_type {
        CartridgeType::Sega32XStandard => Ok(Standard32XMapper::new(rom_size)),
        CartridgeType::Sega32XROM => Ok(Standard32XMapper::new(rom_size)),
        CartridgeType::Sega32XRAM => Ok(Standard32XMapper::new(rom_size)),
        _ => Err(CartridgeError::UnsupportedHardware(cart_type)),
    }
}

} // verus!
