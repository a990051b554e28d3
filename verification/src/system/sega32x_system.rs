//! The 32X cartridge: ROM behind its address decoder, the registers
//! through which the 68000 and the two SH-2 talk, and a window on the
//! frame buffer.

use vstd::prelude::*;
use crate::bits::{byte_of_u32, hi_byte, high_byte, lo_byte, low_byte, make_word, u32_byte, word_of};
use crate::mapper::sega32x::{
    create_mapper,
    AccessType,
    CartridgeError,
    CartridgeType,
    ComponentType,
    DecoderState,
    Standard32XMapper,
};
use crate::mapper::Region;
use crate::system::{CartridgeInfo, System};

verus! {

/// Pixels of the frame buffer: 256 by 224.
pub const FRAME_PIXELS: usize = 256 * 224;

/// Bytes of backup memory that a 32X cartridge carries.
pub const BACKUP_BYTES: usize = 256 * 1024;

/// The shortest ROM that has a header.
pub const HEADER_END: usize = 0x100;

/// What an address without memory behind it reads as.
pub const OPEN_BYTE: u8 = 0xFF;

/// The cartridge as a value.
pub struct CartState {
    pub decoder: DecoderState,
    pub rom: Seq<u8>,
    pub sram: Seq<u8>,
    pub comm: Seq<u32>,
    pub frame: Seq<u16>,
    pub mode_32x: bool,
    pub master_halted: bool,
    pub slave_halted: bool,
}

/// The byte of a memory at an address, or the open bus behind its end.
pub open spec fn byte_or_open(memory: Seq<u8>, addr: int) -> u8 {
    if 0 <= addr < memory.len() {
        memory[addr]
    } else {
        OPEN_BYTE
    }
}

/// The region of a cartridge: the one that was asked for, else the USA.
pub open spec fn region_or_default(hint: Option<Region>) -> Region {
    match hint {
        Some(r) => r,
        None => Region::USA,
    }
}

impl CartState {
    pub open spec fn valid(self) -> bool {
        self.decoder.valid() && self.comm.len() == 8 && self.frame.len() == FRAME_PIXELS
    }

    /// A cartridge at power-on: registers and frame buffer zero, the
    /// 32X off, both SH-2 halted.
    pub open spec fn fresh(rom: Seq<u8>) -> Self {
        CartState {
            decoder: DecoderState::fresh(rom.len() as int),
            rom,
            sram: Seq::new(BACKUP_BYTES as nat, |i: int| 0u8),
            comm: Seq::new(8, |i: int| 0u32),
            frame: Seq::new(FRAME_PIXELS as nat, |i: int| 0u16),
            mode_32x: false,
            master_halted: true,
            slave_halted: true,
        }
    }

    pub open spec fn after_reset(self) -> Self {
        CartState {
            decoder: self.decoder.after_reset(),
            comm: Seq::new(8, |i: int| 0u32),
            frame: Seq::new(FRAME_PIXELS as nat, |i: int| 0u16),
            mode_32x: false,
            master_halted: true,
            slave_halted: true,
            ..self
        }
    }

    /// The word of the frame buffer at an offset of its window.
    pub open spec fn frame_word(self, offset: int) -> u16 {
        self.frame[offset / 2]
    }

    /// The byte at an address.
    pub open spec fn byte_at(self, addr: u32) -> u8 {
        let m = self.decoder.mapped(addr);
        match m.component {
            ComponentType::Rom => byte_or_open(self.rom, m.addr as int),
            ComponentType::Sram => byte_or_open(self.sram, m.addr as int),
            ComponentType::Communication => byte_of_u32(self.comm[m.addr as int / 4], m.addr as int % 4),
            ComponentType::Framebuffer => if m.addr % 2 == 0 {
                lo_byte(self.frame_word(m.addr as int))
            } else {
                hi_byte(self.frame_word(m.addr as int))
            },
            _ => OPEN_BYTE,
        }
    }

    /// The two bytes from an address on, the first one low.
    pub open spec fn byte_pair(self, addr: u32) -> u16 {
        word_of(self.byte_at(addr), self.byte_at(((addr + 1) % 0x1_0000_0000) as u32))
    }

    /// The word at an address: an even address reads big-endian from
    /// ROM and backup memory, the low half of a register, a word of the
    /// frame buffer; everything else reads two bytes.
    pub open spec fn word_at(self, addr: u32) -> u16 {
        let m = self.decoder.mapped(addr);
        if addr % 2 != 0 {
            self.byte_pair(addr)
        } else {
            match m.component {
                ComponentType::Rom => word_of(
                    byte_or_open(self.rom, m.addr as int + 1),
                    byte_or_open(self.rom, m.addr as int),
                ),
                ComponentType::Sram => word_of(
                    byte_or_open(self.sram, m.addr as int + 1),
                    byte_or_open(self.sram, m.addr as int),
                ),
                ComponentType::Communication => (self.comm[m.addr as int / 4] % 0x1_0000) as u16,
                ComponentType::Framebuffer => self.frame_word(m.addr as int),
                _ => self.byte_pair(addr),
            }
        }
    }

    /// The cartridge after a value was written to a communication
    /// register through an offset of the window: the register holds the
    /// value; the first register switches the 32X, the second halts the
    /// SH-2.
    pub open spec fn after_comm(self, offset: int, value: u32) -> Self {
        let comm = self.comm.update(offset / 4, value);
        if offset == 0 {
            CartState { comm, mode_32x: value % 2 == 1, ..self }
        } else if offset == 4 {
            CartState { comm, master_halted: value % 2 == 1, slave_halted: (value / 2) % 2 == 1, ..self }
        } else {
            CartState { comm, ..self }
        }
    }

    /// The cartridge after a word was written to the frame buffer.
    pub open spec fn after_frame_word(self, offset: int, value: u16) -> Self {
        CartState { frame: self.frame.update(offset / 2, value), ..self }
    }

    /// The cartridge after a byte was written to backup memory.
    pub open spec fn after_sram_byte(self, addr: int, value: u8) -> Self {
        if 0 <= addr < self.sram.len() {
            CartState { sram: self.sram.update(addr, value), ..self }
        } else {
            self
        }
    }

    /// The cartridge after a byte was written: a write to ROM goes to
    /// the decoder's register that the low byte of the address names.
    pub open spec fn after_byte(self, addr: u32, value: u8) -> Self {
        let m = self.decoder.mapped(addr);
        match m.component {
            ComponentType::Rom => CartState { decoder: self.decoder.written((addr % 256) as u8, value), ..self },
            ComponentType::Sram => self.after_sram_byte(m.addr as int, value),
            ComponentType::Communication => self.after_comm(m.addr as int, value as u32),
            ComponentType::Framebuffer => self.after_frame_word(
                m.addr as int,
                if m.addr % 2 == 0 {
                    word_of(value, hi_byte(self.frame_word(m.addr as int)))
                } else {
                    word_of(lo_byte(self.frame_word(m.addr as int)), value)
                },
            ),
            _ => self,
        }
    }

    /// The cartridge after two bytes were written from an address on,
    /// the low one first.
    pub open spec fn after_byte_pair(self, addr: u32, value: u16) -> Self {
        self.after_byte(addr, lo_byte(value)).after_byte(((addr + 1) % 0x1_0000_0000) as u32, hi_byte(value))
    }

    /// The cartridge after a word was written.
    pub open spec fn after_word(self, addr: u32, value: u16) -> Self {
        let m = self.decoder.mapped(addr);
        if addr % 2 != 0 {
            self.after_byte_pair(addr, value)
        } else {
            match m.component {
                ComponentType::Rom => CartState {
                    decoder: self.decoder.written((addr % 256) as u8, hi_byte(value)).written(
                        ((addr + 1) % 256) as u8,
                        lo_byte(value),
                    ),
                    ..self
                },
                ComponentType::Sram => self.after_sram_byte(m.addr as int, hi_byte(value)).after_sram_byte(
                    m.addr as int + 1,
                    lo_byte(value),
                ),
                ComponentType::Communication => self.after_comm(m.addr as int, value as u32),
                ComponentType::Framebuffer => self.after_frame_word(m.addr as int, value),
                _ => self.after_byte_pair(addr, value),
            }
        }
    }
}

/// A 32X cartridge.
pub struct Sega32XCartridge {
    info: CartridgeInfo,
    mapper: Standard32XMapper,
    rom: Vec<u8>,
    sram: Vec<u8>,
    communication_regs: [u32; 8],
    framebuffer: Vec<u16>,
    is_32x_mode: bool,
    is_master_sh2_halted: bool,
    is_slave_sh2_halted: bool,
}

impl View for Sega32XCartridge {
    type V = CartState;

    closed spec fn view(&self) -> CartState {
        CartState {
            decoder: self.mapper@,
            rom: self.rom@,
            sram: self.sram@,
            comm: self.communication_regs@,
            frame: self.framebuffer@,
            mode_32x: self.is_32x_mode,
            master_halted: self.is_master_sh2_halted,
            slave_halted: self.is_slave_sh2_halted,
        }
    }
}

/// The board of a 32X ROM; one too short for a header is no ROM.
pub fn detect_32x_type(rom_data: &[u8]) -> (r: Result<CartridgeType, CartridgeError>)
    ensures
        rom_data@.len() < HEADER_END ==> r == Err::<CartridgeType, CartridgeError>(CartridgeError::InvalidRom),
        rom_data@.len() >= HEADER_END ==> r == Ok::<CartridgeType, CartridgeError>(CartridgeType::Sega32XStandard),
{
    if rom_data.len() < HEADER_END {
        return Err(CartridgeError::InvalidRom);
    }
    Ok(CartridgeType::Sega32XStandard)
}

fn byte_of(memory: &Vec<u8>, addr: u64) -> (r: u8)
    ensures
        r == byte_or_open(memory@, addr as int),
{
    if addr < memory.len() as u64 {
        memory[addr as usize]
    } else {
        OPEN_BYTE
    }
}

impl Sega32XCartridge {
    /// What is known of the cartridge.
    pub closed spec fn described(&self) -> CartridgeInfo {
        self.info
    }

    /// Makes the cartridge of a ROM; one without a header is refused.
    pub fn create(rom_data: Vec<u8>, region_hint: Option<Region>) -> (r: Result<Self, CartridgeError>)
        ensures
            rom_data@.len() < HEADER_END ==> r is Err && r->Err_0 == CartridgeError::InvalidRom,
            rom_data@.len() >= HEADER_END ==> r is Ok && r->Ok_0@ == CartState::fresh(rom_data@) && r->Ok_0@.valid()
                && r->Ok_0.described().system == System::Sega32X && r->Ok_0.described().cartridge_type
                == CartridgeType::Sega32XStandard && r->Ok_0.described().region == region_or_default(region_hint)
                && r->Ok_0.described().rom_size == rom_data@.len() && r->Ok_0.described().sram_size == BACKUP_BYTES
                && !r->Ok_0.described().has_eeprom && r->Ok_0.described().eeprom_type is None
                && !r->Ok_0.described().has_flash && !r->Ok_0.described().has_special_chip
                && r->Ok_0.described().special_chip is None,
    {
        let cart_type = match detect_32x_type(rom_data.as_slice()) {
            Ok(t) => t,
            Err(e) => {
                return Err(e);
            },
        };
        let region = match region_hint {
            Some(r) => r,
            None => Region::USA,
        };
        let mapper = match create_mapper(cart_type, rom_data.len()) {
            Ok(m) => m,
            Err(e) => {
                return Err(e);
            },
        };
        let info = CartridgeInfo {
            system: System::Sega32X,
            cartridge_type: cart_type,
            region,
            rom_size: rom_data.len(),
            sram_size: BACKUP_BYTES,
            has_eeprom: false,
            eeprom_type: None,
            has_flash: false,
            has_special_chip: false,
            special_chip: None,
        };
        let cart = Sega32XCartridge {
            info,
            mapper,
            rom: rom_data,
            sram: vec![0u8; BACKUP_BYTES],
            communication_regs: [0u32;8],
            framebuffer: vec![0u16; FRAME_PIXELS],
            is_32x_mode: false,
            is_master_sh2_halted: true,
            is_slave_sh2_halted: true,
        };
        assert(cart@.sram =~= CartState::fresh(rom_data@).sram);
        assert(cart@.comm =~= CartState::fresh(rom_data@).comm);
        assert(cart@.frame =~= CartState::fresh(rom_data@).frame);
        Ok(cart)
    }

    /// A write to a communication register through an offset of the
    /// window.
    fn handle_communication(&mut self, offset: u32, value: u32, is_write: bool)
        requires
            old(self)@.valid(),
            offset < 0x20,
        ensures
            final(self)@ == (if is_write {
                old(self)@.after_comm(offset as int, value)
            } else {
                old(self)@
            }),
            final(self).described() == old(self).described(),
    {
        let reg_index: usize = (offset / 4) as usize;
        if is_write {
            self.communication_regs[reg_index] = value;
            if offset == 0 {
                self.is_32x_mode = value % 2 == 1;
            } else if offset == 4 {
                self.is_master_sh2_halted = value % 2 == 1;
                self.is_slave_sh2_halted = (value / 2) % 2 == 1;
            }
        }
    }

    fn read_framebuffer(&self, offset: u32) -> (r: u16)
        requires
            self@.valid(),
            offset < 0x80,
        ensures
            r == self@.frame_word(offset as int),
    {
        self.framebuffer[(offset / 2) as usize]
    }

    fn write_framebuffer(&mut self, offset: u32, value: u16)
        requires
            old(self)@.valid(),
            offset < 0x80,
        ensures
            final(self)@ == old(self)@.after_frame_word(offset as int, value),
            final(self).described() == old(self).described(),
    {
        self.framebuffer[(offset / 2) as usize] = value;
    }

    fn write_sram(&mut self, addr: u64, value: u8)
        ensures
            final(self)@ == old(self)@.after_sram_byte(addr as int, value),
            final(self).described() == old(self).described(),
    {
        if addr < self.sram.len() as u64 {
            self.sram[addr as usize] = value;
        }
    }

    pub fn read_byte(&self, addr: u32) -> (r: u8)
        requires
            self@.valid(),
        ensures
            r == self@.byte_at(addr),
    {
        let mapped = self.mapper.map_address(addr, AccessType::Read);
        match mapped.component {
            ComponentType::Rom => byte_of(&self.rom, mapped.addr as u64),
            ComponentType::Sram => byte_of(&self.sram, mapped.addr as u64),
            ComponentType::Communication => u32_byte(
                self.communication_regs[(mapped.addr / 4) as usize],
                (mapped.addr % 4) as usize,
            ),
            ComponentType::Framebuffer => {
                let word = self.read_framebuffer(mapped.addr);
                if mapped.addr % 2 == 0 {
                    low_byte(word)
                } else {
                    high_byte(word)
                }
            },
            _ => OPEN_BYTE,
        }
    }

    fn read_byte_pair(&self, addr: u32) -> (r: u16)
        requires
            self@.valid(),
        ensures
            r == self@.byte_pair(addr),
    {
        let low = self.read_byte(addr);
        let high = self.read_byte(addr.wrapping_add(1));
        make_word(low, high)
    }

    pub fn read_word(&self, addr: u32) -> (r: u16)
        requires
            self@.valid(),
        ensures
            r == self@.word_at(addr),
    {
        if addr % 2 != 0 {
            return self.read_byte_pair(addr);
        }
        let mapped = self.mapper.map_address(addr, AccessType::Read);
        match mapped.component {
            ComponentType::Rom => make_word(
                byte_of(&self.rom, mapped.addr as u64 + 1),
                byte_of(&self.rom, mapped.addr as u64),
            ),
            ComponentType::Sram => make_word(
                byte_of(&self.sram, mapped.addr as u64 + 1),
                byte_of(&self.sram, mapped.addr as u64),
            ),
            ComponentType::Communication => (self.communication_regs[(mapped.addr / 4) as usize] % 0x1_0000) as u16,
            ComponentType::Framebuffer => self.read_framebuffer(mapped.addr),
            _ => self.read_byte_pair(addr),
        }
    }

    pub fn write_byte(&mut self, addr: u32, value: u8)
        requires
            old(self)@.valid(),
        ensures
            final(self)@ == old(self)@.after_byte(addr, value),
            final(self)@.valid(),
            final(self).described() == old(self).described(),
    {
        let mapped = self.mapper.map_address(addr, AccessType::Write);
        match mapped.component {
            ComponentType::Rom => {
                self.mapper.write_register((addr % 256) as u8, value);
            },
            ComponentType::Sram => {
                self.write_sram(mapped.addr as u64, value);
            },
            ComponentType::Communication => {
                self.handle_communication(mapped.addr, value as u32, true);
            },
            ComponentType::Framebuffer => {
                let word = self.read_framebuffer(mapped.addr);
                let merged = if mapped.addr % 2 == 0 {
                    make_word(value, high_byte(word))
                } else {
                    make_word(low_byte(word), value)
                };
                self.write_framebuffer(mapped.addr, merged);
            },
            _ => {},
        }
    }

    fn write_byte_pair(&mut self, addr: u32, value: u16)
        requires
            old(self)@.valid(),
        ensures
            final(self)@ == old(self)@.after_byte_pair(addr, value),
            final(self)@.valid(),
            final(self).described() == old(self).described(),
    {
        self.write_byte(addr, low_byte(value));
        self.write_byte(addr.wrapping_add(1), high_byte(value));
    }

    pub fn write_word(&mut self, addr: u32, value: u16)
        requires
            old(self)@.valid(),
        ensures
            final(self)@ == old(self)@.after_word(addr, value),
            final(self)@.valid(),
            final(self).described() == old(self).described(),
    {
        if addr % 2 != 0 {
            self.write_byte_pair(addr, value);
            return;
        }
        let mapped = self.mapper.map_address(addr, AccessType::Write);
        match mapped.component {
            ComponentType::Rom => {
                self.mapper.write_register((addr % 256) as u8, high_byte(value));
                self.mapper.write_register(((addr + 1) % 256) as u8, low_byte(value));
            },
            ComponentType::Sram => {
                self.write_sram(mapped.addr as u64, high_byte(value));
                self.write_sram(mapped.addr as u64 + 1, low_byte(value));
            },
            ComponentType::Communication => {
                self.handle_communication(mapped.addr, value as u32, true);
            },
            ComponentType::Framebuffer => {
                self.write_framebuffer(mapped.addr, value);
            },
            _ => {
                self.write_byte_pair(addr, value);
            },
        }
    }

    pub fn reset(&mut self)
        requires
            old(self)@.valid(),
        ensures
            final(self)@ == old(self)@.after_reset(),
            final(self)@.valid(),
            final(self).described() == old(self).described(),
    {
        self.mapper.reset();
        self.communication_regs = [0u32;8];
        let mut i: usize = 0;
        while i < FRAME_PIXELS
            invariant
                i <= FRAME_PIXELS,
                self.framebuffer@.len() == FRAME_PIXELS,
                forall|k: int| 0 <= k < i ==> #[trigger] self.framebuffer@[k] == 0,
                self.mapper@ == old(self).mapper@.after_reset(),
                self.mapper@.valid(),
                self.communication_regs@ =~= Seq::new(8, |k: int| 0u32),
                self.rom == old(self).rom,
                self.sram == old(self).sram,
                self.info == old(self).info,
            decreases FRAME_PIXELS - i,
        {
            self.framebuffer[i] = 0;
            i = i + 1;
        }
        self.is_32x_mode = false;
        self.is_master_sh2_halted = true;
        self.is_slave_sh2_halted = true;
        assert(self@.frame =~= old(self)@.after_reset().frame);
    }

    pub fn info(&self) -> (r: &CartridgeInfo)
        ensures
            *r == self.described(),
    {
        &self.info
    }

    /// Time passes without effect.
    pub fn tick(&mut self, cycles: u32)
        ensures
            *final(self) == *old(self),
    {
    }

    /// The cartridge keeps nothing in a snapshot.
    pub fn save_state(&self) -> (state: Vec<u8>)
        ensures
            state@.len() == 0,
    {
        Vec::new()
    }

    pub fn load_state(&mut self, data: &[u8]) -> (r: Result<(), CartridgeError>)
        ensures
            r is Ok,
            *final(self) == *old(self),
    {
        Ok(())
    }

    pub fn is_32x_mode(&self) -> (r: bool)
        ensures
            r == self@.mode_32x,
    {
        self.is_32x_mode
    }

    pub fn is_master_halted(&self) -> (r: bool)
        ensures
            r == self@.master_halted,
    {
        self.is_master_sh2_halted
    }

    pub fn is_slave_halted(&self) -> (r: bool)
        ensures
            r == self@.slave_halted,
    {
        self.is_slave_sh2_halted
    }
}

} // verus!
