//! The Action Replay and Pro Action Replay: a register file that decodes
//! up to four ROM patches, 64 KiB of RAM and the device's own ROM.

use vstd::prelude::*;
use crate::bits::{make_word, word_of};

verus! {

/// Registers of the device.
pub const REG_COUNT: usize = 13;

/// Patches that the device holds.
pub const PATCH_COUNT: usize = 4;

/// Bytes of the device's RAM.
pub const RAM_SIZE: usize = 0x1_0000;

/// Largest ROM image of a device.
pub const MAX_ROM_SIZE: usize = 0x1_0000;

/// Bytes of the ROM that a standard device mirrors.
pub const MIRROR_SIZE: usize = 0x8000;

/// Offset of the signature in the ROM of the first two models.
pub const SIGNATURE_OFFSET: usize = 0x120;

/// Offset of the signature in the ROM of the Pro Action Replay 2.
pub const PRO2_SIGNATURE_OFFSET: usize = 0x3C6;

#[derive(Clone, Copy, Debug, PartialEq, Eq, Structural)]
pub enum ActionReplayType {
    /// No device, or one that was not recognised.
    Disabled,
    /// Action Replay, 32 KiB of ROM.
    Standard,
    /// Pro Action Replay.
    Pro1,
    /// Pro Action Replay 2.
    Pro2,
}

#[derive(Clone, Copy, Debug, PartialEq, Eq, Structural)]
pub enum ActionReplayStatus {
    Off,
    /// The patches are applied.
    On,
    /// Trainer mode, on the Pro models only.
    Trainer,
}

/// "ACTION REPLAY   ", the signature of the standard model.
pub open spec fn standard_signature() -> Seq<u8> {
    seq![
        0x41u8, 0x43u8, 0x54u8, 0x49u8, 0x4Fu8, 0x4Eu8, 0x20u8, 0x52u8, 0x45u8, 0x50u8, 0x4Cu8, 0x41u8, 0x59u8,
        0x20u8, 0x20u8, 0x20u8,
    ]
}

/// "ACTION REPLAY 2 ", the signature of the Pro Action Replay.
pub open spec fn pro1_signature() -> Seq<u8> {
    seq![
        0x41u8, 0x43u8, 0x54u8, 0x49u8, 0x4Fu8, 0x4Eu8, 0x20u8, 0x52u8, 0x45u8, 0x50u8, 0x4Cu8, 0x41u8, 0x59u8,
        0x20u8, 0x32u8, 0x20u8,
    ]
}

/// "ACTION REPLAY II", the signature of the Pro Action Replay 2.
pub open spec fn pro2_signature() -> Seq<u8> {
    seq![
        0x41u8, 0x43u8, 0x54u8, 0x49u8, 0x4Fu8, 0x4Eu8, 0x20u8, 0x52u8, 0x45u8, 0x50u8, 0x4Cu8, 0x41u8, 0x59u8,
        0x20u8, 0x49u8, 0x49u8,
    ]
}

/// `pattern` stands in `data` at `offset`.
pub open spec fn stands_at(data: Seq<u8>, offset: int, pattern: Seq<u8>) -> bool {
    offset + pattern.len() <= data.len() && data.subrange(offset, offset + pattern.len()) == pattern
}

/// The model that a ROM image belongs to: by its signature, and for the
/// Pro models also by the high byte of its stack pointer.
pub open spec fn model_of(rom: Seq<u8>) -> ActionReplayType {
    if rom.len() < SIGNATURE_OFFSET + 16 {
        ActionReplayType::Disabled
    } else if stands_at(rom, SIGNATURE_OFFSET as int, standard_signature()) {
        ActionReplayType::Standard
    } else if rom[1] == 0x42 && stands_at(rom, SIGNATURE_OFFSET as int, pro1_signature()) {
        ActionReplayType::Pro1
    } else if rom[1] == 0x60 && stands_at(rom, PRO2_SIGNATURE_OFFSET as int, pro2_signature()) {
        ActionReplayType::Pro2
    } else {
        ActionReplayType::Disabled
    }
}

/// The ROM as a device of a model maps it: the standard model mirrors
/// its first 32 KiB behind the image.
pub open spec fn mapped_rom(rom: Seq<u8>, model: ActionReplayType) -> Seq<u8> {
    if model == ActionReplayType::Standard {
        rom + rom.subrange(
            0,
            if rom.len() < MIRROR_SIZE {
                rom.len() as int
            } else {
                MIRROR_SIZE as int
            },
        )
    } else {
        rom
    }
}

/// The register that holds the data of patch `k`.
pub open spec fn data_reg(k: int) -> int {
    if k == 0 {
        0
    } else if k == 1 {
        4
    } else if k == 2 {
        7
    } else {
        10
    }
}

/// The register that holds the low sixteen bits of the address of
/// patch `k`; the next one holds the upper six in its bits 8 to 13.
pub open spec fn addr_reg(k: int) -> int {
    if k == 0 {
        1
    } else if k == 1 {
        5
    } else if k == 2 {
        8
    } else {
        11
    }
}

/// The byte address of patch `k` as the registers hold it: a word
/// address of 22 bits, doubled.
pub open spec fn patch_addr_of(regs: Seq<u16>, k: int) -> u32 {
    ((regs[addr_reg(k)] + ((regs[addr_reg(k) + 1] / 256) % 64) * 0x1_0000) * 2) as u32
}

/// The even offset in RAM or ROM that an address selects.
pub open spec fn even_offset(address: u32) -> int {
    ((address % 0x1_0000) / 2) * 2
}

/// The device as contracts see it.
pub struct ReplayState {
    pub enabled: ActionReplayType,
    pub status: ActionReplayStatus,
    pub ram: Seq<u8>,
    pub regs: Seq<u16>,
    pub old: Seq<u16>,
    pub data: Seq<u16>,
    pub addr: Seq<u32>,
    pub rom: Seq<u8>,
}

impl ReplayState {
    pub open spec fn initial() -> ReplayState {
        ReplayState {
            enabled: ActionReplayType::Disabled,
            status: ActionReplayStatus::Off,
            ram: Seq::new(RAM_SIZE as nat, |i: int| 0xFFu8),
            regs: Seq::new(REG_COUNT as nat, |i: int| 0u16),
            old: Seq::new(PATCH_COUNT as nat, |i: int| 0u16),
            data: Seq::new(PATCH_COUNT as nat, |i: int| 0u16),
            addr: Seq::new(PATCH_COUNT as nat, |i: int| 0u32),
            rom: Seq::empty(),
        }
    }

    /// The device with its patches decoded from the registers.
    pub open spec fn with_patches(self) -> ReplayState {
        ReplayState {
            data: Seq::new(PATCH_COUNT as nat, |k: int| self.regs[data_reg(k)]),
            addr: Seq::new(PATCH_COUNT as nat, |k: int| patch_addr_of(self.regs, k)),
            ..self
        }
    }

    /// The device after its switch was set. A device that is not there
    /// has no switch, and the standard model has no trainer position.
    /// Switching on decodes the patches from the registers.
    pub open spec fn switched(self, status: ActionReplayStatus) -> ReplayState {
        if self.enabled == ActionReplayType::Disabled {
            self
        } else if self.enabled == ActionReplayType::Standard && status == ActionReplayStatus::Trainer {
            self
        } else if status == ActionReplayStatus::On && self.status != ActionReplayStatus::On {
            ReplayState { status, ..self.with_patches() }
        } else {
            ReplayState { status, ..self }
        }
    }

    /// The device after a reset: a hard reset, or any reset in trainer
    /// mode, zeroes the registers and the patches; a hard reset also
    /// fills the RAM with 0xFF.
    pub open spec fn after_reset(self, hard_reset: bool) -> ReplayState {
        if self.enabled == ActionReplayType::Disabled || !(hard_reset || self.status
            == ActionReplayStatus::Trainer) {
            self
        } else {
            ReplayState {
                regs: Seq::new(REG_COUNT as nat, |i: int| 0u16),
                old: Seq::new(PATCH_COUNT as nat, |i: int| 0u16),
                data: Seq::new(PATCH_COUNT as nat, |i: int| 0u16),
                addr: Seq::new(PATCH_COUNT as nat, |i: int| 0u32),
                ram: if hard_reset {
                    Seq::new(RAM_SIZE as nat, |i: int| 0xFFu8)
                } else {
                    self.ram
                },
                ..self
            }
        }
    }

    /// The device after a register write. Addresses past the thirteenth
    /// register are ignored. Writing 0xFFFF to the mode register,
    /// number 3, of a device that is switched on applies the patches
    /// anew.
    pub open spec fn after_register_write(self, address: u32, data: u16) -> ReplayState {
        let offset = (address % 0x1_0000) as int / 2;
        if offset > 12 {
            self
        } else {
            let stored = ReplayState { regs: self.regs.update(offset, data), ..self };
            if offset == 3 && data == 0xFFFF && stored.status == ActionReplayStatus::On {
                stored.switched(ActionReplayStatus::Off).switched(ActionReplayStatus::On)
            } else {
                stored
            }
        }
    }

    /// The little-endian word of `bytes` at the offset that an address
    /// selects, or 0xFFFF past the end.
    pub open spec fn word_in(bytes: Seq<u8>, offset: int) -> u16 {
        if offset + 1 < bytes.len() {
            word_of(bytes[offset], bytes[offset + 1])
        } else {
            0xFFFF
        }
    }

    /// Where the device's RAM lies on the bus, if the model has it
    /// mapped: at 0x420000 on the Pro Action Replay, at 0x600000 on
    /// the Pro Action Replay 2.
    pub open spec fn ram_base(self) -> Option<u32> {
        match self.enabled {
            ActionReplayType::Pro1 => Some(0x42_0000u32),
            ActionReplayType::Pro2 => Some(0x60_0000u32),
            _ => None,
        }
    }
}

pub struct ActionReplay {
    enabled: ActionReplayType,
    status: ActionReplayStatus,
    ram: [u8; 0x10000],
    regs: [u16; 13],
    old: [u16; 4],
    data: [u16; 4],
    addr: [u32; 4],
    rom: Vec<u8>,
}

impl View for ActionReplay {
    type V = ReplayState;

    closed spec fn view(&self) -> ReplayState {
        ReplayState {
            enabled: self.enabled,
            status: self.status,
            ram: self.ram@,
            regs: self.regs@,
            old: self.old@,
            data: self.data@,
            addr: self.addr@,
            rom: self.rom@,
        }
    }
}

/// Whether a pattern of sixteen bytes stands in `data` at `offset`.
pub fn signature_at(data: &Vec<u8>, offset: usize, pattern: &[u8; 16]) -> (r: bool)
    ensures
        r == stands_at(data@, offset as int, pattern@),
{
    let size = data.len();
    if size < 16 || offset > size - 16 {
        return false;
    }
    let mut i: usize = 0;
    while i < 16
        invariant
            i <= 16,
            size == data@.len(),
            size >= 16,
            offset <= size - 16,
            forall|j: int| 0 <= j < i ==> data@[offset + j] == pattern@[j],
        decreases 16 - i,
    {
        if data[offset + i] != pattern[i] {
            assert(data@.subrange(offset as int, offset + 16)[i as int] != pattern@[i as int]);
            return false;
        }
        i = i + 1;
    }
    assert(data@.subrange(offset as int, offset + 16) =~= pattern@);
    true
}

impl ActionReplay {
    /// No device: every register zero, the RAM filled with 0xFF.
    pub fn new() -> (r: Self)
        ensures
            r@ == ReplayState::initial(),
    {
        let r = ActionReplay {
            enabled: ActionReplayType::Disabled,
            status: ActionReplayStatus::Off,
            ram: [0xFF; 0x10000],
            regs: [0; 13],
            old: [0; 4],
            data: [0; 4],
            addr: [0; 4],
            rom: Vec::new(),
        };
        assert(r@.ram =~= ReplayState::initial().ram);
        assert(r@.regs =~= ReplayState::initial().regs);
        assert(r@.old =~= ReplayState::initial().old);
        assert(r@.data =~= ReplayState::initial().data);
        assert(r@.addr =~= ReplayState::initial().addr);
        assert(r@.rom =~= ReplayState::initial().rom);
        r
    }

    /// Takes the device's ROM image and detects the model. An image
    /// past 64 KiB is refused and changes nothing; one that is not
    /// recognised is kept, and the device stays as it was.
    pub fn init(&mut self, rom: Vec<u8>) -> (ok: bool)
        ensures
            rom@.len() > MAX_ROM_SIZE ==> !ok && final(self)@ == old(self)@,
            rom@.len() <= MAX_ROM_SIZE ==> ok == (model_of(rom@) != ActionReplayType::Disabled),
            rom@.len() <= MAX_ROM_SIZE && ok ==> final(self)@ == (ReplayState {
                enabled: model_of(rom@),
                rom: mapped_rom(rom@, model_of(rom@)),
                ..old(self)@
            }),
            rom@.len() <= MAX_ROM_SIZE && !ok ==> final(self)@ == (ReplayState { rom: rom@, ..old(self)@ }),
    {
        if rom.len() > MAX_ROM_SIZE {
            return false;
        }
        self.rom = rom;
        self.detect_type()
    }

    fn detect_type(&mut self) -> (ok: bool)
        requires
            old(self)@.rom.len() <= MAX_ROM_SIZE,
        ensures
            ok == (model_of(old(self)@.rom) != ActionReplayType::Disabled),
            ok ==> final(self)@ == (ReplayState {
                enabled: model_of(old(self)@.rom),
                rom: mapped_rom(old(self)@.rom, model_of(old(self)@.rom)),
                ..old(self)@
            }),
            !ok ==> final(self)@ == old(self)@,
    {
        if self.rom.len() < SIGNATURE_OFFSET + 16 {
            return false;
        }
        let standard: [u8; 16] = [
            0x41, 0x43, 0x54, 0x49, 0x4F, 0x4E, 0x20, 0x52, 0x45, 0x50, 0x4C, 0x41, 0x59, 0x20, 0x20, 0x20,
        ];
        let pro1: [u8; 16] = [
            0x41, 0x43, 0x54, 0x49, 0x4F, 0x4E, 0x20, 0x52, 0x45, 0x50, 0x4C, 0x41, 0x59, 0x20, 0x32, 0x20,
        ];
        let pro2: [u8; 16] = [
            0x41, 0x43, 0x54, 0x49, 0x4F, 0x4E, 0x20, 0x52, 0x45, 0x50, 0x4C, 0x41, 0x59, 0x20, 0x49, 0x49,
        ];
        assert(standard@ =~= standard_signature());
        assert(pro1@ =~= pro1_signature());
        assert(pro2@ =~= pro2_signature());
        if signature_at(&self.rom, SIGNATURE_OFFSET, &standard) {
            self.enabled = ActionReplayType::Standard;
            let mirror: usize = if self.rom.len() < MIRROR_SIZE {
                self.rom.len()
            } else {
                MIRROR_SIZE
            };
            let mut i: usize = 0;
            while i < mirror
                invariant
                    i <= mirror,
                    mirror <= old(self)@.rom.len(),
                    self@ == (ReplayState { enabled: ActionReplayType::Standard, rom: self@.rom, ..old(self)@ }),
                    self@.rom == old(self)@.rom + old(self)@.rom.subrange(0, i as int),
                decreases mirror - i,
            {
                let b = self.rom[i];
                self.rom.push(b);
                assert(self@.rom =~= old(self)@.rom + old(self)@.rom.subrange(0, i + 1));
                i = i + 1;
            }
            return true;
        }
        let sp: u8 = self.rom[1];
        if sp == 0x42 && signature_at(&self.rom, SIGNATURE_OFFSET, &pro1) {
            self.enabled = ActionReplayType::Pro1;
            return true;
        }
        if sp == 0x60 && signature_at(&self.rom, PRO2_SIGNATURE_OFFSET, &pro2) {
            self.enabled = ActionReplayType::Pro2;
            return true;
        }
        false
    }

    pub fn reset(&mut self, hard_reset: bool)
        ensures
            final(self)@ == old(self)@.after_reset(hard_reset),
    {
        if self.enabled == ActionReplayType::Disabled {
            return;
        }
        if hard_reset || self.status == ActionReplayStatus::Trainer {
            self.regs = [0; 13];
            self.old = [0; 4];
            self.data = [0; 4];
            self.addr = [0; 4];
            if hard_reset {
                self.ram = [0xFF; 0x10000];
            }
            assert(self@.regs =~= old(self)@.after_reset(hard_reset).regs);
            assert(self@.old =~= old(self)@.after_reset(hard_reset).old);
            assert(self@.data =~= old(self)@.after_reset(hard_reset).data);
            assert(self@.addr =~= old(self)@.after_reset(hard_reset).addr);
            assert(self@.ram =~= old(self)@.after_reset(hard_reset).ram);
        }
    }

    /// The position of the switch, if there is a device.
    pub fn get_status(&self) -> (r: Option<ActionReplayStatus>)
        ensures
            r == (if self@.enabled != ActionReplayType::Disabled {
                Some(self@.status)
            } else {
                None
            }),
    {
        if self.enabled != ActionReplayType::Disabled {
            Some(self.status)
        } else {
            None
        }
    }

    /// Sets the switch.
    pub fn set_status(&mut self, status: ActionReplayStatus)
        ensures
            final(self)@ == old(self)@.switched(status),
    {
        if self.enabled == ActionReplayType::Disabled {
            return;
        }
        if self.enabled == ActionReplayType::Standard && status == ActionReplayStatus::Trainer {
            return;
        }
        match status {
            ActionReplayStatus::Off => {
                if self.status == ActionReplayStatus::On {
                    self.restore_patches();
                }
            },
            ActionReplayStatus::Trainer => {
                if self.status == ActionReplayStatus::On {
                    self.restore_patches();
                }
            },
            ActionReplayStatus::On => {
                if self.status != ActionReplayStatus::On {
                    self.apply_patches();
                }
            },
        }
        self.status = status;
    }

    fn apply_patches(&mut self)
        ensures
            final(self)@ == old(self)@.with_patches(),
    {
        self.data[0] = self.regs[0];
        self.data[1] = self.regs[4];
        self.data[2] = self.regs[7];
        self.data[3] = self.regs[10];
        self.addr[0] = patch_address(self.regs[1], self.regs[2]);
        self.addr[1] = patch_address(self.regs[5], self.regs[6]);
        self.addr[2] = patch_address(self.regs[8], self.regs[9]);
        self.addr[3] = patch_address(self.regs[11], self.regs[12]);
        assert(self@.data =~= old(self)@.with_patches().data);
        assert(self@.addr =~= old(self)@.with_patches().addr);
    }

    /// The cartridge is never written: there is nothing to put back.
    fn restore_patches(&self) {
    }

    /// Writes a register of the first two models.
    pub fn write_regs(&mut self, address: u32, data: u16)
        ensures
            final(self)@ == old(self)@.after_register_write(address, data),
    {
        let offset: usize = ((address % 0x1_0000) / 2) as usize;
        if offset > 12 {
            return;
        }
        self.regs[offset] = data;
        if offset == 3 && data == 0xFFFF {
            if self.status == ActionReplayStatus::On {
                self.set_status(ActionReplayStatus::Off);
                self.set_status(ActionReplayStatus::On);
            }
        }
    }

    /// Writes the register of the Pro Action Replay 2, which only hands
    /// the bus back to the cartridge.
    pub fn write_reg_pro2(&mut self, address: u32, data: u16)
        ensures
            final(self)@ == old(self)@,
    {
    }

    /// Writes a byte to the RAM. The byte goes to both halves of the
    /// word at the even address.
    pub fn write_ram_8(&mut self, address: u32, data: u8)
        ensures
            final(self)@ == (ReplayState {
                ram: old(self)@.ram.update(even_offset(address), data).update(even_offset(address) + 1, data),
                ..old(self)@
            }),
    {
        let addr: usize = (((address % 0x1_0000) / 2) * 2) as usize;
        self.ram[addr] = data;
        self.ram[addr + 1] = data;
    }

    /// Reads a word of the device's ROM; past its end, 0xFFFF.
    pub fn read_rom(&self, address: u32) -> (r: u16)
        ensures
            r == ReplayState::word_in(self@.rom, (address % 0x1_0000) as int),
    {
        let addr: usize = (address % 0x1_0000) as usize;
        if addr + 1 < self.rom.len() {
            make_word(self.rom[addr], self.rom[addr + 1])
        } else {
            0xFFFF
        }
    }

    /// Reads the word of RAM at the even address.
    pub fn read_ram(&self, address: u32) -> (r: u16)
        ensures
            r == word_of(self@.ram[even_offset(address)], self@.ram[even_offset(address) + 1]),
    {
        let addr: usize = (((address % 0x1_0000) / 2) * 2) as usize;
        make_word(self.ram[addr], self.ram[addr + 1])
    }

    pub fn is_enabled(&self) -> (r: bool)
        ensures
            r == (self@.enabled != ActionReplayType::Disabled),
    {
        self.enabled != ActionReplayType::Disabled
    }

    pub fn get_type(&self) -> (r: ActionReplayType)
        ensures
            r == self@.enabled,
    {
        self.enabled
    }

    /// Where on the bus the device's RAM is to be mapped, if anywhere.
    pub fn setup_memory_map(&self) -> (r: Option<u32>)
        ensures
            r == self@.ram_base(),
    {
        match self.enabled {
            ActionReplayType::Pro1 => Some(0x42_0000),
            ActionReplayType::Pro2 => Some(0x60_0000),
            _ => None,
        }
    }
}

/// The byte address of a patch from its two registers.
pub fn patch_address(low: u16, high: u16) -> (r: u32)
    ensures
        r == ((low + ((high / 256) % 64) * 0x1_0000) * 2) as u32,
        r < 0x80_0000,
{
    ((low as u32) + (((high / 256) % 64) as u32) * 0x1_0000) * 2
}

} // verus!
