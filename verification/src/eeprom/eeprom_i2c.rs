//! The I2C EEPROMs (24Cxx): a two-wire bus with start and stop
//! conditions, a device address, a word address of one or two bytes, and
//! page-wise writes.

use vstd::prelude::*;
use crate::bits::{flag_byte, flag_of, le16, push_u16, read_u16, u16_at};
use crate::eeprom::{with_byte, BackupRam};

verus! {

/// Bytes of a snapshot.
pub const SNAPSHOT_BYTES: usize = 20;

#[derive(Clone, Copy, Debug, PartialEq, Eq, Structural)]
pub enum EepromI2CState {
    StandBy,
    WaitStop,
    GetDeviceAdr,
    GetWordAdr7Bits,
    GetWordAdrHigh,
    GetWordAdrLow,
    WriteData,
    ReadData,
}

#[derive(Clone, Copy, Debug, PartialEq, Eq, Structural)]
pub enum EepromI2CType {
    X24C01,
    X24C02,
    C24C01,
    C24C02,
    C24C04,
    C24C08,
    C24C16,
    C24C32,
    C24C64,
    C24C65,
    C24C128,
    C24C256,
    C24C512,
}

/// What tells one model from another.
#[derive(Clone, Copy, Debug, PartialEq, Eq, Structural)]
pub struct EepromI2CSpec {
    /// Bits of the word address: 7, 8 or 16.
    pub address_bits: u8,
    /// Size of the memory less one.
    pub size_mask: u16,
    /// Size of a page less one.
    pub pagewrite_mask: u16,
}

/// The characteristics of a model.
pub open spec fn spec_of(eeprom_type: EepromI2CType) -> EepromI2CSpec {
    match eeprom_type {
        EepromI2CType::X24C01 => EepromI2CSpec { address_bits: 7, size_mask: 0x7F, pagewrite_mask: 0x03 },
        EepromI2CType::X24C02 => EepromI2CSpec { address_bits: 8, size_mask: 0xFF, pagewrite_mask: 0x03 },
        EepromI2CType::C24C01 => EepromI2CSpec { address_bits: 8, size_mask: 0x7F, pagewrite_mask: 0x07 },
        EepromI2CType::C24C02 => EepromI2CSpec { address_bits: 8, size_mask: 0xFF, pagewrite_mask: 0x07 },
        EepromI2CType::C24C04 => EepromI2CSpec { address_bits: 8, size_mask: 0x1FF, pagewrite_mask: 0x0F },
        EepromI2CType::C24C08 => EepromI2CSpec { address_bits: 8, size_mask: 0x3FF, pagewrite_mask: 0x0F },
        EepromI2CType::C24C16 => EepromI2CSpec { address_bits: 8, size_mask: 0x7FF, pagewrite_mask: 0x0F },
        EepromI2CType::C24C32 => EepromI2CSpec { address_bits: 16, size_mask: 0xFFF, pagewrite_mask: 0x1F },
        EepromI2CType::C24C64 => EepromI2CSpec { address_bits: 16, size_mask: 0x1FFF, pagewrite_mask: 0x1F },
        EepromI2CType::C24C65 => EepromI2CSpec { address_bits: 16, size_mask: 0x1FFF, pagewrite_mask: 0x3F },
        EepromI2CType::C24C128 => EepromI2CSpec { address_bits: 16, size_mask: 0x3FFF, pagewrite_mask: 0x3F },
        EepromI2CType::C24C256 => EepromI2CSpec { address_bits: 16, size_mask: 0x7FFF, pagewrite_mask: 0x3F },
        EepromI2CType::C24C512 => EepromI2CSpec { address_bits: 16, size_mask: 0xFFFF, pagewrite_mask: 0x7F },
    }
}

/// The model with given characteristics; the first model where they
/// are no model's.
pub open spec fn type_of(spec: EepromI2CSpec) -> EepromI2CType {
    if spec == spec_of(EepromI2CType::X24C02) {
        EepromI2CType::X24C02
    } else if spec == spec_of(EepromI2CType::C24C01) {
        EepromI2CType::C24C01
    } else if spec == spec_of(EepromI2CType::C24C02) {
        EepromI2CType::C24C02
    } else if spec == spec_of(EepromI2CType::C24C04) {
        EepromI2CType::C24C04
    } else if spec == spec_of(EepromI2CType::C24C08) {
        EepromI2CType::C24C08
    } else if spec == spec_of(EepromI2CType::C24C16) {
        EepromI2CType::C24C16
    } else if spec == spec_of(EepromI2CType::C24C32) {
        EepromI2CType::C24C32
    } else if spec == spec_of(EepromI2CType::C24C64) {
        EepromI2CType::C24C64
    } else if spec == spec_of(EepromI2CType::C24C65) {
        EepromI2CType::C24C65
    } else if spec == spec_of(EepromI2CType::C24C128) {
        EepromI2CType::C24C128
    } else if spec == spec_of(EepromI2CType::C24C256) {
        EepromI2CType::C24C256
    } else if spec == spec_of(EepromI2CType::C24C512) {
        EepromI2CType::C24C512
    } else {
        EepromI2CType::X24C01
    }
}

/// The number of a state in a snapshot.
pub open spec fn state_code(state: EepromI2CState) -> u8 {
    match state {
        EepromI2CState::StandBy => 0,
        EepromI2CState::WaitStop => 1,
        EepromI2CState::GetDeviceAdr => 2,
        EepromI2CState::GetWordAdr7Bits => 3,
        EepromI2CState::GetWordAdrHigh => 4,
        EepromI2CState::GetWordAdrLow => 5,
        EepromI2CState::WriteData => 6,
        EepromI2CState::ReadData => 7,
    }
}

/// The state with a number in a snapshot.
pub open spec fn state_of(code: u8) -> EepromI2CState {
    if code == 0 {
        EepromI2CState::StandBy
    } else if code == 1 {
        EepromI2CState::WaitStop
    } else if code == 2 {
        EepromI2CState::GetDeviceAdr
    } else if code == 3 {
        EepromI2CState::GetWordAdr7Bits
    } else if code == 4 {
        EepromI2CState::GetWordAdrHigh
    } else if code == 5 {
        EepromI2CState::GetWordAdrLow
    } else if code == 6 {
        EepromI2CState::WriteData
    } else {
        EepromI2CState::ReadData
    }
}

/// A device address moved up past a word address of `bits` bits.
pub open spec fn shifted_device(device: u16, bits: u8) -> u16 {
    if bits >= 16 {
        0
    } else {
        device << (bits as u16)
    }
}

/// The state that takes data bits: past its first clock.
pub open spec fn takes_bits(state: EepromI2CState) -> bool {
    state == EepromI2CState::GetWordAdrHigh || state == EepromI2CState::GetWordAdrLow || state
        == EepromI2CState::ReadData || state == EepromI2CState::WriteData
}

/// The chip as contracts see it.
pub struct I2CState {
    pub sda: u8,
    pub scl: u8,
    pub old_sda: u8,
    pub old_scl: u8,
    /// Clock of the current byte, 0 to 9; the ninth is the acknowledge.
    pub cycles: u8,
    /// The operation reads.
    pub rw: bool,
    pub device_address: u16,
    pub word_address: u16,
    pub buffer: u8,
    pub state: EepromI2CState,
    pub spec: EepromI2CSpec,
    pub scl_in_bit: u8,
    pub sda_in_bit: u8,
    pub sda_out_bit: u8,
}

impl I2CState {
    pub open spec fn valid(self) -> bool {
        &&& self.cycles <= 9
        &&& (takes_bits(self.state) ==> self.cycles >= 1)
        &&& self.scl_in_bit < 8
        &&& self.sda_in_bit < 8
        &&& self.sda_out_bit < 8
    }

    pub open spec fn initial(eeprom_type: EepromI2CType) -> I2CState {
        I2CState {
            sda: 1,
            scl: 1,
            old_sda: 1,
            old_scl: 1,
            cycles: 0,
            rw: false,
            device_address: 0,
            word_address: 0,
            buffer: 0,
            state: EepromI2CState::StandBy,
            spec: spec_of(eeprom_type),
            scl_in_bit: 1,
            sda_in_bit: 0,
            sda_out_bit: 0,
        }
    }

    /// The address in the memory: device address and word address
    /// together.
    pub open spec fn address(self) -> u16 {
        self.device_address | self.word_address
    }

    /// The state listens for a start condition.
    pub open spec fn hears_start(self) -> bool {
        self.state != EepromI2CState::WaitStop
    }

    /// The state listens for a stop condition.
    pub open spec fn hears_stop(self) -> bool {
        self.state != EepromI2CState::StandBy
    }

    /// The chip after a start condition: a new operation begins, with
    /// the word address on the 7-bit models and the device address on
    /// the others.
    pub open spec fn started(self) -> I2CState {
        if self.spec.address_bits == 7 {
            I2CState { cycles: 0, word_address: 0, state: EepromI2CState::GetWordAdr7Bits, ..self }
        } else {
            I2CState { cycles: 0, device_address: 0, state: EepromI2CState::GetDeviceAdr, ..self }
        }
    }

    /// The chip after the clock fell: the next bit's turn, and after the
    /// ninth the next byte's, which may be the next state's.
    pub open spec fn after_falling(self) -> I2CState {
        if self.state == EepromI2CState::StandBy || self.state == EepromI2CState::WaitStop {
            self
        } else if self.cycles < 9 {
            I2CState { cycles: (self.cycles + 1) as u8, ..self }
        } else {
            let next = I2CState { cycles: 1, ..self };
            match self.state {
                EepromI2CState::GetWordAdr7Bits => I2CState {
                    state: if self.rw {
                        EepromI2CState::ReadData
                    } else {
                        EepromI2CState::WriteData
                    },
                    buffer: 0,
                    ..next
                },
                EepromI2CState::GetDeviceAdr => {
                    let device = shifted_device(self.device_address, self.spec.address_bits);
                    if self.rw {
                        I2CState { device_address: device, state: EepromI2CState::ReadData, ..next }
                    } else {
                        I2CState {
                            device_address: device,
                            word_address: 0,
                            state: if self.spec.address_bits == 16 {
                                EepromI2CState::GetWordAdrHigh
                            } else {
                                EepromI2CState::GetWordAdrLow
                            },
                            ..next
                        }
                    }
                },
                EepromI2CState::GetWordAdrHigh => I2CState { state: EepromI2CState::GetWordAdrLow, ..next },
                EepromI2CState::GetWordAdrLow => I2CState { state: EepromI2CState::WriteData, buffer: 0, ..next },
                _ => next,
            }
        }
    }

    /// A word-address bit taken at bit position `k`: into the word
    /// address if the memory is that large, else the device address
    /// moves down instead.
    pub open spec fn with_address_bit(self, k: u16) -> I2CState {
        if self.spec.size_mask < (1u16 << k) {
            I2CState { device_address: self.device_address >> 1u16, ..self }
        } else {
            I2CState { word_address: self.word_address | ((self.sda as u16) << k), ..self }
        }
    }

    /// The chip and the memory after the clock rose: a bit is taken from
    /// the data line, or on the ninth clock the byte is acknowledged.
    pub open spec fn after_rising(self, sram: Seq<u8>) -> (I2CState, Seq<u8>) {
        match self.state {
            EepromI2CState::GetWordAdr7Bits => if self.cycles < 8 {
                (
                    I2CState {
                        word_address: self.word_address | ((self.sda as u16) << ((7 - self.cycles) as u16)),
                        ..self
                    },
                    sram,
                )
            } else if self.cycles == 8 {
                (I2CState { rw: self.sda != 0, ..self }, sram)
            } else {
                (self, sram)
            },
            EepromI2CState::GetDeviceAdr => if 4 < self.cycles < 8 {
                (
                    I2CState {
                        device_address: self.device_address | ((self.sda as u16) << ((7 - self.cycles) as u16)),
                        ..self
                    },
                    sram,
                )
            } else if self.cycles == 8 {
                (I2CState { rw: self.sda != 0, ..self }, sram)
            } else {
                (self, sram)
            },
            EepromI2CState::GetWordAdrHigh => if self.cycles < 9 {
                (self.with_address_bit((16 - self.cycles) as u16), sram)
            } else {
                (self, sram)
            },
            EepromI2CState::GetWordAdrLow => if self.cycles < 9 {
                (self.with_address_bit((8 - self.cycles) as u16), sram)
            } else {
                (self, sram)
            },
            EepromI2CState::ReadData => if self.cycles == 9 {
                if self.sda != 0 {
                    (I2CState { state: EepromI2CState::WaitStop, ..self }, sram)
                } else {
                    (
                        I2CState {
                            word_address: (if self.word_address == 0xFFFF {
                                0u16
                            } else {
                                (self.word_address + 1) as u16
                            }) & self.spec.size_mask,
                            ..self
                        },
                        sram,
                    )
                }
            } else {
                (self, sram)
            },
            EepromI2CState::WriteData => if self.cycles < 9 {
                (I2CState { buffer: self.buffer | (self.sda << ((8 - self.cycles) as u8)), ..self }, sram)
            } else {
                (
                    I2CState {
                        buffer: 0,
                        word_address: (self.word_address & !self.spec.pagewrite_mask) | ((if self.word_address
                            == 0xFFFF {
                            0u16
                        } else {
                            (self.word_address + 1) as u16
                        }) & self.spec.pagewrite_mask),
                        ..self
                    },
                    with_byte(sram, self.address() as int, self.buffer),
                )
            },
            _ => (self, sram),
        }
    }

    /// The chip and the memory after the lines were set: with the clock
    /// high before and after, the data line falling is a start and
    /// rising is a stop; a falling clock moves on, a rising clock takes
    /// a bit. The lines are then remembered.
    pub open spec fn updated(self, sda: u8, scl: u8, sram: Seq<u8>) -> (I2CState, Seq<u8>) {
        let set = I2CState { sda, scl, ..self };
        let stepped = if set.old_scl != 0 && scl != 0 {
            if set.old_sda != 0 && sda == 0 && set.hears_start() {
                (set.started(), sram)
            } else if set.old_sda == 0 && sda != 0 && set.hears_stop() {
                (I2CState { state: EepromI2CState::StandBy, ..set }, sram)
            } else {
                (set, sram)
            }
        } else if set.old_scl != 0 && scl == 0 {
            (set.after_falling(), sram)
        } else if set.old_scl == 0 && scl != 0 {
            set.after_rising(sram)
        } else {
            (set, sram)
        };
        (I2CState { old_scl: scl, old_sda: sda, ..stepped.0 }, stepped.1)
    }

    /// The data line as the chip drives it: while a byte is read, the
    /// bit of the memory whose turn it is; on the acknowledge clock of
    /// any other state, low; else what the host put on it.
    pub open spec fn line_out(self, sram: Seq<u8>) -> u8 {
        if self.state == EepromI2CState::ReadData {
            if self.cycles < 9 && self.address() < sram.len() {
                (sram[self.address() as int] >> ((8 - self.cycles) as u8)) & 1
            } else {
                self.sda
            }
        } else if self.cycles == 9 {
            0
        } else {
            self.sda
        }
    }

    /// The snapshot of the chip.
    pub open spec fn snapshot(self) -> Seq<u8> {
        seq![self.sda, self.scl, self.old_sda, self.old_scl, self.cycles, flag_of(self.rw)] + le16(
            self.device_address,
        ) + le16(self.word_address) + seq![self.buffer, state_code(self.state), self.spec.address_bits] + le16(
            self.spec.size_mask,
        ) + le16(self.spec.pagewrite_mask) + seq![self.scl_in_bit, self.sda_in_bit, self.sda_out_bit]
    }

    /// The chip that a snapshot holds, if it holds one that can occur.
    pub open spec fn parsed(data: Seq<u8>) -> Option<I2CState> {
        if data.len() < SNAPSHOT_BYTES || data[11] > 7 {
            None
        } else {
            let chip = I2CState {
                sda: data[0],
                scl: data[1],
                old_sda: data[2],
                old_scl: data[3],
                cycles: data[4],
                rw: data[5] != 0,
                device_address: u16_at(data, 6),
                word_address: u16_at(data, 8),
                buffer: data[10],
                state: state_of(data[11]),
                spec: EepromI2CSpec {
                    address_bits: data[12],
                    size_mask: u16_at(data, 13),
                    pagewrite_mask: u16_at(data, 15),
                },
                scl_in_bit: data[17],
                sda_in_bit: data[18],
                sda_out_bit: data[19],
            };
            if chip.valid() {
                Some(chip)
            } else {
                None
            }
        }
    }
}

#[derive(Clone, Copy, Debug)]
pub struct EepromI2C {
    sda: u8,
    scl: u8,
    old_sda: u8,
    old_scl: u8,
    cycles: u8,
    rw: bool,
    device_address: u16,
    word_address: u16,
    buffer: u8,
    state: EepromI2CState,
    spec: EepromI2CSpec,
    scl_in_bit: u8,
    sda_in_bit: u8,
    sda_out_bit: u8,
}

impl View for EepromI2C {
    type V = I2CState;

    closed spec fn view(&self) -> I2CState {
        I2CState {
            sda: self.sda,
            scl: self.scl,
            old_sda: self.old_sda,
            old_scl: self.old_scl,
            cycles: self.cycles,
            rw: self.rw,
            device_address: self.device_address,
            word_address: self.word_address,
            buffer: self.buffer,
            state: self.state,
            spec: self.spec,
            scl_in_bit: self.scl_in_bit,
            sda_in_bit: self.sda_in_bit,
            sda_out_bit: self.sda_out_bit,
        }
    }
}

impl EepromI2CSpec {
    /// The characteristics of a model.
    pub fn from_type(eeprom_type: EepromI2CType) -> (r: Self)
        ensures
            r == spec_of(eeprom_type),
    {
        match eeprom_type {
            EepromI2CType::X24C01 => EepromI2CSpec { address_bits: 7, size_mask: 0x7F, pagewrite_mask: 0x03 },
            EepromI2CType::X24C02 => EepromI2CSpec { address_bits: 8, size_mask: 0xFF, pagewrite_mask: 0x03 },
            EepromI2CType::C24C01 => EepromI2CSpec { address_bits: 8, size_mask: 0x7F, pagewrite_mask: 0x07 },
            EepromI2CType::C24C02 => EepromI2CSpec { address_bits: 8, size_mask: 0xFF, pagewrite_mask: 0x07 },
            EepromI2CType::C24C04 => EepromI2CSpec { address_bits: 8, size_mask: 0x1FF, pagewrite_mask: 0x0F },
            EepromI2CType::C24C08 => EepromI2CSpec { address_bits: 8, size_mask: 0x3FF, pagewrite_mask: 0x0F },
            EepromI2CType::C24C16 => EepromI2CSpec { address_bits: 8, size_mask: 0x7FF, pagewrite_mask: 0x0F },
            EepromI2CType::C24C32 => EepromI2CSpec { address_bits: 16, size_mask: 0xFFF, pagewrite_mask: 0x1F },
            EepromI2CType::C24C64 => EepromI2CSpec { address_bits: 16, size_mask: 0x1FFF, pagewrite_mask: 0x1F },
            EepromI2CType::C24C65 => EepromI2CSpec { address_bits: 16, size_mask: 0x1FFF, pagewrite_mask: 0x3F },
            EepromI2CType::C24C128 => EepromI2CSpec { address_bits: 16, size_mask: 0x3FFF, pagewrite_mask: 0x3F },
            EepromI2CType::C24C256 => EepromI2CSpec { address_bits: 16, size_mask: 0x7FFF, pagewrite_mask: 0x3F },
            EepromI2CType::C24C512 => EepromI2CSpec { address_bits: 16, size_mask: 0xFFFF, pagewrite_mask: 0x7F },
        }
    }
}

impl EepromI2C {
    pub open spec fn wf(&self) -> bool {
        self@.valid()
    }

    /// A chip of a model, idle, with both lines high.
    pub fn new(eeprom_type: EepromI2CType) -> (r: Self)
        ensures
            r.wf(),
            r@ == I2CState::initial(eeprom_type),
    {
        EepromI2C {
            sda: 1,
            scl: 1,
            old_sda: 1,
            old_scl: 1,
            cycles: 0,
            rw: false,
            device_address: 0,
            word_address: 0,
            buffer: 0,
            state: EepromI2CState::StandBy,
            spec: EepromI2CSpec::from_type(eeprom_type),
            scl_in_bit: 1,
            sda_in_bit: 0,
            sda_out_bit: 0,
        }
    }

    /// Puts the chip into its idle state and takes the backup memory
    /// into use. The model and the line positions stay.
    pub fn init(&mut self, sram: &mut BackupRam)
        requires
            old(self).wf(),
        ensures
            final(self).wf(),
            final(self)@ == (I2CState {
                spec: old(self)@.spec,
                scl_in_bit: old(self)@.scl_in_bit,
                sda_in_bit: old(self)@.sda_in_bit,
                sda_out_bit: old(self)@.sda_out_bit,
                ..I2CState::initial(EepromI2CType::X24C01)
            }),
            *final(sram) == (BackupRam { custom: 1, on: true, ..*old(sram) }),
    {
        self.sda = 1;
        self.scl = 1;
        self.old_sda = 1;
        self.old_scl = 1;
        self.cycles = 0;
        self.rw = false;
        self.device_address = 0;
        self.word_address = 0;
        self.buffer = 0;
        self.state = EepromI2CState::StandBy;
        sram.custom = 1;
        sram.on = true;
    }

    /// The model of the chip.
    pub fn spec_from_type(&self) -> (r: EepromI2CType)
        ensures
            r == type_of(self@.spec),
    {
        let a = self.spec.address_bits;
        let s = self.spec.size_mask;
        let p = self.spec.pagewrite_mask;
        if a == 8 && s == 0xFF && p == 0x03 {
            EepromI2CType::X24C02
        } else if a == 8 && s == 0x7F && p == 0x07 {
            EepromI2CType::C24C01
        } else if a == 8 && s == 0xFF && p == 0x07 {
            EepromI2CType::C24C02
        } else if a == 8 && s == 0x1FF && p == 0x0F {
            EepromI2CType::C24C04
        } else if a == 8 && s == 0x3FF && p == 0x0F {
            EepromI2CType::C24C08
        } else if a == 8 && s == 0x7FF && p == 0x0F {
            EepromI2CType::C24C16
        } else if a == 16 && s == 0xFFF && p == 0x1F {
            EepromI2CType::C24C32
        } else if a == 16 && s == 0x1FFF && p == 0x1F {
            EepromI2CType::C24C64
        } else if a == 16 && s == 0x1FFF && p == 0x3F {
            EepromI2CType::C24C65
        } else if a == 16 && s == 0x3FFF && p == 0x3F {
            EepromI2CType::C24C128
        } else if a == 16 && s == 0x7FFF && p == 0x3F {
            EepromI2CType::C24C256
        } else if a == 16 && s == 0xFFFF && p == 0x7F {
            EepromI2CType::C24C512
        } else {
            EepromI2CType::X24C01
        }
    }

    fn update(&mut self, sram: &mut BackupRam)
        requires
            old(self).wf(),
        ensures
            final(self).wf(),
            (final(self)@, final(sram).sram@) == old(self)@.updated(
                old(self)@.sda,
                old(self)@.scl,
                old(sram).sram@,
            ),
            final(sram).on == old(sram).on,
            final(sram).custom == old(sram).custom,
    {
        if self.old_scl != 0 && self.scl != 0 {
            if self.state != EepromI2CState::WaitStop {
                self.detect_start();
            }
            if self.state != EepromI2CState::StandBy {
                self.detect_stop();
            }
        } else if self.old_scl != 0 && self.scl == 0 {
            self.clock_fell();
        } else if self.old_scl == 0 && self.scl != 0 {
            self.clock_rose(sram);
        }
        self.old_scl = self.scl;
        self.old_sda = self.sda;
    }

    fn clock_fell(&mut self)
        requires
            old(self).wf(),
        ensures
            final(self).wf(),
            final(self)@ == old(self)@.after_falling(),
    {
        if self.state == EepromI2CState::StandBy || self.state == EepromI2CState::WaitStop {
            return;
        }
        if self.cycles < 9 {
            self.cycles = self.cycles + 1;
            return;
        }
        self.cycles = 1;
        match self.state {
            EepromI2CState::GetWordAdr7Bits => {
                self.state = if self.rw {
                    EepromI2CState::ReadData
                } else {
                    EepromI2CState::WriteData
                };
                self.buffer = 0;
            },
            EepromI2CState::GetDeviceAdr => {
                self.device_address = if self.spec.address_bits >= 16 {
                    0
                } else {
                    self.device_address << (self.spec.address_bits as u16)
                };
                if self.rw {
                    self.state = EepromI2CState::ReadData;
                } else {
                    self.word_address = 0;
                    self.state = if self.spec.address_bits == 16 {
                        EepromI2CState::GetWordAdrHigh
                    } else {
                        EepromI2CState::GetWordAdrLow
                    };
                }
            },
            EepromI2CState::GetWordAdrHigh => {
                self.state = EepromI2CState::GetWordAdrLow;
            },
            EepromI2CState::GetWordAdrLow => {
                self.state = EepromI2CState::WriteData;
                self.buffer = 0;
            },
            _ => {},
        }
    }

    fn take_address_bit(&mut self, k: u16)
        requires
            k < 16,
        ensures
            final(self)@ == old(self)@.with_address_bit(k),
    {
        if self.spec.size_mask < (1u16 << k) {
            self.device_address = self.device_address >> 1u16;
        } else {
            self.word_address = self.word_address | ((self.sda as u16) << k);
        }
    }

    fn clock_rose(&mut self, sram: &mut BackupRam)
        requires
            old(self).wf(),
        ensures
            final(self).wf(),
            (final(self)@, final(sram).sram@) == old(self)@.after_rising(old(sram).sram@),
            final(sram).on == old(sram).on,
            final(sram).custom == old(sram).custom,
    {
        match self.state {
            EepromI2CState::GetWordAdr7Bits => {
                if self.cycles < 8 {
                    self.word_address = self.word_address | ((self.sda as u16) << ((7 - self.cycles) as u16));
                } else if self.cycles == 8 {
                    self.rw = self.sda != 0;
                }
            },
            EepromI2CState::GetDeviceAdr => {
                if self.cycles > 4 && self.cycles < 8 {
                    self.device_address = self.device_address | ((self.sda as u16) << ((7 - self.cycles) as u16));
                } else if self.cycles == 8 {
                    self.rw = self.sda != 0;
                }
            },
            EepromI2CState::GetWordAdrHigh => {
                if self.cycles < 9 {
                    self.take_address_bit((16 - self.cycles) as u16);
                }
            },
            EepromI2CState::GetWordAdrLow => {
                if self.cycles < 9 {
                    self.take_address_bit((8 - self.cycles) as u16);
                }
            },
            EepromI2CState::ReadData => {
                if self.cycles == 9 {
                    if self.sda != 0 {
                        self.state = EepromI2CState::WaitStop;
                    } else {
                        self.word_address = self.word_address.wrapping_add(1) & self.spec.size_mask;
                    }
                }
            },
            EepromI2CState::WriteData => {
                if self.cycles < 9 {
                    self.buffer = self.buffer | (self.sda << (8 - self.cycles));
                } else {
                    let address: usize = (self.device_address | self.word_address) as usize;
                    if address < sram.sram.len() {
                        sram.sram[address] = self.buffer;
                    }
                    self.buffer = 0;
                    self.word_address = (self.word_address & !self.spec.pagewrite_mask) | (
                    self.word_address.wrapping_add(1) & self.spec.pagewrite_mask);
                }
            },
            _ => {},
        }
    }

    fn detect_start(&mut self)
        requires
            old(self).wf(),
        ensures
            final(self).wf(),
            final(self)@ == (if old(self)@.old_scl != 0 && old(self)@.scl != 0 && old(self)@.old_sda != 0 && old(self)@.sda == 0 {
                old(self)@.started()
            } else {
                old(self)@
            }),
    {
        if self.old_scl != 0 && self.scl != 0 {
            if self.old_sda != 0 && self.sda == 0 {
                self.cycles = 0;
                if self.spec.address_bits == 7 {
                    self.word_address = 0;
                    self.state = EepromI2CState::GetWordAdr7Bits;
                } else {
                    self.device_address = 0;
                    self.state = EepromI2CState::GetDeviceAdr;
                }
            }
        }
    }

    fn detect_stop(&mut self)
        requires
            old(self).wf(),
        ensures
            final(self).wf(),
            final(self)@ == (if old(self)@.old_scl != 0 && old(self)@.scl != 0 && old(self)@.old_sda == 0 && old(self)@.sda != 0 {
                I2CState { state: EepromI2CState::StandBy, ..old(self)@ }
            } else {
                old(self)@
            }),
    {
        if self.old_scl != 0 && self.scl != 0 {
            if self.old_sda == 0 && self.sda != 0 {
                self.state = EepromI2CState::StandBy;
            }
        }
    }

    fn out(&self, sram: &BackupRam) -> (r: u8)
        requires
            self.wf(),
        ensures
            r == self@.line_out(sram.sram@),
    {
        if self.state == EepromI2CState::ReadData {
            if self.cycles < 9 {
                let address: usize = (self.device_address | self.word_address) as usize;
                if address < sram.sram.len() {
                    return (sram.sram[address] >> (8 - self.cycles)) & 1;
                }
            }
        } else if self.cycles == 9 {
            return 0;
        }
        self.sda
    }

    /// Sets the two lines.
    pub fn write(&mut self, sda: u8, scl: u8, sram: &mut BackupRam)
        requires
            old(self).wf(),
        ensures
            final(self).wf(),
            (final(self)@, final(sram).sram@) == old(self)@.updated(sda, scl, old(sram).sram@),
            final(sram).on == old(sram).on,
            final(sram).custom == old(sram).custom,
    {
        self.sda = sda;
        self.scl = scl;
        self.update(sram);
    }

    /// Sets the two lines from a control byte, each from its own bit.
    pub fn write_lines(&mut self, data: u8, sram: &mut BackupRam)
        requires
            old(self).wf(),
        ensures
            final(self).wf(),
            (final(self)@, final(sram).sram@) == old(self)@.updated(
                (data >> old(self)@.sda_in_bit) & 1,
                (data >> old(self)@.scl_in_bit) & 1,
                old(sram).sram@,
            ),
            final(sram).on == old(sram).on,
            final(sram).custom == old(sram).custom,
    {
        let sda: u8 = (data >> self.sda_in_bit) & 1;
        let scl: u8 = (data >> self.scl_in_bit) & 1;
        self.write(sda, scl, sram);
    }

    /// Reads the data line.
    pub fn read(&self, sram: &BackupRam) -> (r: u8)
        requires
            self.wf(),
        ensures
            r == self@.line_out(sram.sram@),
    {
        self.out(sram)
    }

    /// Puts the chip back into the idle state of its model.
    pub fn reset(&mut self)
        ensures
            final(self).wf(),
            final(self)@ == I2CState::initial(type_of(old(self)@.spec)),
    {
        let eeprom_type = self.spec_from_type();
        *self = EepromI2C::new(eeprom_type);
    }

    /// Writes the snapshot of the chip.
    pub fn save_state(&self) -> (state: Vec<u8>)
        ensures
            state@ == self@.snapshot(),
            state@.len() == SNAPSHOT_BYTES,
    {
        let mut state: Vec<u8> = Vec::new();
        state.push(self.sda);
        state.push(self.scl);
        state.push(self.old_sda);
        state.push(self.old_scl);
        state.push(self.cycles);
        state.push(flag_byte(self.rw));
        assert(state@ =~= seq![self.sda, self.scl, self.old_sda, self.old_scl, self.cycles, flag_of(self.rw)]);
        push_u16(&mut state, self.device_address);
        push_u16(&mut state, self.word_address);
        let ghost head = state@;
        state.push(self.buffer);
        state.push(
            match self.state {
                EepromI2CState::StandBy => 0,
                EepromI2CState::WaitStop => 1,
                EepromI2CState::GetDeviceAdr => 2,
                EepromI2CState::GetWordAdr7Bits => 3,
                EepromI2CState::GetWordAdrHigh => 4,
                EepromI2CState::GetWordAdrLow => 5,
                EepromI2CState::WriteData => 6,
                EepromI2CState::ReadData => 7,
            },
        );
        state.push(self.spec.address_bits);
        assert(state@ =~= head + seq![self.buffer, state_code(self.state), self.spec.address_bits]);
        push_u16(&mut state, self.spec.size_mask);
        push_u16(&mut state, self.spec.pagewrite_mask);
        let ghost head2 = state@;
        state.push(self.scl_in_bit);
        state.push(self.sda_in_bit);
        state.push(self.sda_out_bit);
        assert(state@ =~= head2 + seq![self.scl_in_bit, self.sda_in_bit, self.sda_out_bit]);
        state
    }

    /// Loads a snapshot. One that is too short, names no state, or
    /// holds a chip that cannot occur is refused before anything is
    /// changed.
    pub fn load_state(&mut self, data: &[u8]) -> (ok: bool)
        ensures
            ok == I2CState::parsed(data@) is Some,
            ok ==> final(self)@ == I2CState::parsed(data@)->0 && final(self).wf(),
            !ok ==> final(self)@ == old(self)@,
    {
        if data.len() < SNAPSHOT_BYTES {
            return false;
        }
        let code = data[11];
        let state = if code == 0 {
            EepromI2CState::StandBy
        } else if code == 1 {
            EepromI2CState::WaitStop
        } else if code == 2 {
            EepromI2CState::GetDeviceAdr
        } else if code == 3 {
            EepromI2CState::GetWordAdr7Bits
        } else if code == 4 {
            EepromI2CState::GetWordAdrHigh
        } else if code == 5 {
            EepromI2CState::GetWordAdrLow
        } else if code == 6 {
            EepromI2CState::WriteData
        } else if code == 7 {
            EepromI2CState::ReadData
        } else {
            return false;
        };
        let chip = EepromI2C {
            sda: data[0],
            scl: data[1],
            old_sda: data[2],
            old_scl: data[3],
            cycles: data[4],
            rw: data[5] != 0,
            device_address: read_u16(data, 6),
            word_address: read_u16(data, 8),
            buffer: data[10],
            state,
            spec: EepromI2CSpec {
                address_bits: data[12],
                size_mask: read_u16(data, 13),
                pagewrite_mask: read_u16(data, 15),
            },
            scl_in_bit: data[17],
            sda_in_bit: data[18],
            sda_out_bit: data[19],
        };
        let bits = chip.state == EepromI2CState::GetWordAdrHigh || chip.state == EepromI2CState::GetWordAdrLow
            || chip.state == EepromI2CState::ReadData || chip.state == EepromI2CState::WriteData;
        if chip.cycles > 9 || (bits && chip.cycles < 1) || chip.scl_in_bit >= 8 || chip.sda_in_bit >= 8
            || chip.sda_out_bit >= 8 {
            return false;
        }
        *self = chip;
        true
    }

    pub fn scl_in_bit(&self) -> (r: u8)
        ensures
            r == self@.scl_in_bit,
    {
        self.scl_in_bit
    }

    pub fn sda_in_bit(&self) -> (r: u8)
        ensures
            r == self@.sda_in_bit,
    {
        self.sda_in_bit
    }

    pub fn sda_out_bit(&self) -> (r: u8)
        ensures
            r == self@.sda_out_bit,
    {
        self.sda_out_bit
    }
}

} // verus!
