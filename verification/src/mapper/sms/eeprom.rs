//! The 93C46 of the Game Gear cartridges that carry one: 64 words of 16
//! bits, driven through a control and a data port.

use vstd::prelude::*;

verus! {

/// Words in the memory.
pub const WORD_COUNT: usize = 64;

#[derive(Clone, Copy, Debug, PartialEq, Eq, Structural)]
pub enum EepromState {
    Idle,
    Start,
    Opcode,
    Address,
    ReadData,
    WriteData,
    Erase,
    WriteAll,
    EraseAll,
}

/// The chip as contracts see it.
pub struct ChipState {
    pub memory: Seq<u16>,
    pub enabled: bool,
    pub cs: bool,
    pub sk: bool,
    pub di: bool,
    pub do_out: bool,
    pub opcode: u8,
    pub address: u8,
    pub data: u16,
    /// Clocks that have passed in the current state.
    pub bits: u8,
    pub state: EepromState,
}

/// A bit as a number.
pub open spec fn bit_value(b: bool) -> u8 {
    if b {
        1
    } else {
        0
    }
}

impl ChipState {
    /// The memory has its 64 words, and the clock count fits the
    /// state.
    pub open spec fn valid(self) -> bool {
        &&& self.memory.len() == WORD_COUNT
        &&& match self.state {
            EepromState::Start => self.bits < 3,
            EepromState::Opcode => self.bits < 3,
            EepromState::Address => self.bits < 7,
            EepromState::ReadData => self.bits < 16,
            EepromState::WriteData => self.bits < 16,
            EepromState::EraseAll => self.bits <= 65,
            EepromState::WriteAll => self.bits <= 80,
            _ => true,
        }
    }

    pub open spec fn initial() -> ChipState {
        ChipState {
            memory: Seq::new(WORD_COUNT as nat, |i: int| 0xFFFFu16),
            enabled: false,
            cs: false,
            sk: false,
            di: false,
            do_out: false,
            opcode: 0,
            address: 0,
            data: 0,
            bits: 0,
            state: EepromState::Idle,
        }
    }

    /// The word that the address register names; the memory has six
    /// address bits.
    pub open spec fn word_index(self) -> int {
        self.address as int % 64
    }

    /// The chip after the three opcode bits are in.
    pub open spec fn after_opcode(self) -> ChipState {
        let op = self.opcode % 8;
        if op == 1 || op == 2 || op == 3 {
            ChipState { state: EepromState::Address, bits: 0, ..self }
        } else if op == 0 {
            ChipState { enabled: false, state: EepromState::Idle, ..self }
        } else if op == 4 {
            ChipState { state: EepromState::EraseAll, bits: 0, ..self }
        } else if op == 5 {
            ChipState { state: EepromState::WriteAll, bits: 0, ..self }
        } else if op == 6 {
            ChipState { enabled: true, state: EepromState::Idle, ..self }
        } else {
            ChipState { state: EepromState::Idle, ..self }
        }
    }

    /// The chip after the seven address bits are in.
    pub open spec fn after_address(self) -> ChipState {
        let op = (self.opcode / 2) % 4;
        if op == 1 {
            ChipState {
                data: self.memory[self.word_index()],
                do_out: false,
                state: EepromState::ReadData,
                bits: 0,
                ..self
            }
        } else if op == 0 {
            ChipState { state: EepromState::WriteData, bits: 0, data: 0, ..self }
        } else if op == 2 {
            ChipState {
                memory: self.memory.update(self.word_index(), 0xFFFFu16),
                do_out: false,
                state: EepromState::Idle,
                ..self
            }
        } else {
            ChipState { state: EepromState::Idle, ..self }
        }
    }

    /// The chip after a rising clock edge with the lines at `cs` and
    /// `di`. Without chip select the chip idles; with it, opcode,
    /// address and data pass bit by bit, highest first.
    pub open spec fn clocked(self, cs: bool, di: bool) -> ChipState {
        if !cs {
            ChipState { state: EepromState::Idle, bits: 0, ..self }
        } else {
            match self.state {
                EepromState::Idle => if di {
                    ChipState { state: EepromState::Start, bits: 1, ..self }
                } else {
                    self
                },
                EepromState::Start => {
                    let taken = ChipState {
                        opcode: (self.opcode << 1u8) | bit_value(di),
                        bits: (self.bits + 1) as u8,
                        ..self
                    };
                    if taken.bits == 3 {
                        ChipState { state: EepromState::Opcode, bits: 0, ..taken }
                    } else {
                        taken
                    }
                },
                EepromState::Opcode => {
                    let taken = ChipState {
                        opcode: (self.opcode << 1u8) | bit_value(di),
                        bits: (self.bits + 1) as u8,
                        ..self
                    };
                    if taken.bits == 3 {
                        taken.after_opcode()
                    } else {
                        taken
                    }
                },
                EepromState::Address => {
                    let taken = ChipState {
                        address: (self.address << 1u8) | bit_value(di),
                        bits: (self.bits + 1) as u8,
                        ..self
                    };
                    if taken.bits == 7 {
                        taken.after_address()
                    } else {
                        taken
                    }
                },
                EepromState::ReadData => {
                    let shown = ChipState {
                        do_out: self.data >= 0x8000,
                        data: self.data << 1u16,
                        bits: (self.bits + 1) as u8,
                        ..self
                    };
                    if shown.bits == 16 {
                        ChipState { state: EepromState::Idle, do_out: true, ..shown }
                    } else {
                        shown
                    }
                },
                EepromState::WriteData => {
                    let taken = ChipState {
                        data: (self.data << 1u16) | (bit_value(di) as u16),
                        bits: (self.bits + 1) as u8,
                        ..self
                    };
                    if taken.bits == 16 {
                        ChipState {
                            memory: taken.memory.update(taken.word_index(), taken.data),
                            do_out: false,
                            state: EepromState::Idle,
                            ..taken
                        }
                    } else {
                        taken
                    }
                },
                EepromState::EraseAll => if self.bits == 0 {
                    if di {
                        ChipState { bits: 1, ..self }
                    } else {
                        ChipState { state: EepromState::Idle, ..self }
                    }
                } else if self.bits < 65 {
                    ChipState { bits: (self.bits + 1) as u8, ..self }
                } else {
                    ChipState {
                        memory: Seq::new(WORD_COUNT as nat, |i: int| 0xFFFFu16),
                        state: EepromState::Idle,
                        ..self
                    }
                },
                EepromState::WriteAll => if self.bits < 16 {
                    ChipState {
                        data: (self.data << 1u16) | (bit_value(di) as u16),
                        bits: (self.bits + 1) as u8,
                        ..self
                    }
                } else if self.bits < 80 {
                    ChipState { bits: (self.bits + 1) as u8, ..self }
                } else {
                    ChipState {
                        memory: Seq::new(WORD_COUNT as nat, |i: int| self.data),
                        state: EepromState::Idle,
                        ..self
                    }
                },
                EepromState::Erase => self,
            }
        }
    }

    /// The chip after a write to the data port: bit 0 is chip select,
    /// bit 1 the clock, bit 2 data in. A rising clock clocks the chip;
    /// the lines are then remembered. A disabled chip ignores the port.
    pub open spec fn after_data_write(self, value: u8) -> ChipState {
        if !self.enabled {
            self
        } else {
            let cs = value % 2 == 1;
            let sk = (value / 2) % 2 == 1;
            let di = (value / 4) % 2 == 1;
            let stepped = if !self.sk && sk {
                self.clocked(cs, di)
            } else {
                self
            };
            ChipState { cs, sk, di, ..stepped }
        }
    }

    /// The chip after a write to the control port: bit 3 enables the
    /// chip, bit 7 resets it.
    pub open spec fn after_control_write(self, value: u8) -> ChipState {
        if value >= 0x80 {
            ChipState::initial()
        } else {
            ChipState { enabled: (value / 8) % 2 == 1, ..self }
        }
    }
}

pub struct Eeprom93c46 {
    memory: [u16; 64],
    enabled: bool,
    cs: bool,
    sk: bool,
    di: bool,
    do_out: bool,
    opcode: u8,
    address: u8,
    data: u16,
    bits: u8,
    state: EepromState,
}

impl View for Eeprom93c46 {
    type V = ChipState;

    closed spec fn view(&self) -> ChipState {
        ChipState {
            memory: self.memory@,
            enabled: self.enabled,
            cs: self.cs,
            sk: self.sk,
            di: self.di,
            do_out: self.do_out,
            opcode: self.opcode,
            address: self.address,
            data: self.data,
            bits: self.bits,
            state: self.state,
        }
    }
}

impl Eeprom93c46 {
    pub open spec fn wf(&self) -> bool {
        self@.valid()
    }

    /// An erased chip, disabled.
    pub fn new() -> (r: Self)
        ensures
            r.wf(),
            r@ == ChipState::initial(),
    {
        let r = Eeprom93c46 {
            memory: [0xFFFF; 64],
            enabled: false,
            cs: false,
            sk: false,
            di: false,
            do_out: false,
            opcode: 0,
            address: 0,
            data: 0,
            bits: 0,
            state: EepromState::Idle,
        };
        assert(r@.memory =~= ChipState::initial().memory);
        r
    }

    pub fn write_control(&mut self, value: u8)
        requires
            old(self).wf(),
        ensures
            final(self).wf(),
            final(self)@ == old(self)@.after_control_write(value),
    {
        self.enabled = (value / 8) % 2 == 1;
        if value >= 0x80 {
            self.reset();
        }
    }

    pub fn write_data(&mut self, value: u8)
        requires
            old(self).wf(),
        ensures
            final(self).wf(),
            final(self)@ == old(self)@.after_data_write(value),
    {
        if !self.enabled {
            return;
        }
        let new_cs = value % 2 == 1;
        let new_sk = (value / 2) % 2 == 1;
        let new_di = (value / 4) % 2 == 1;
        if !self.sk && new_sk {
            self.clock(new_cs, new_di);
        }
        self.cs = new_cs;
        self.sk = new_sk;
        self.di = new_di;
    }

    /// Reads the data port: data out in bit 7; a disabled chip reads as
    /// 0xFF.
    pub fn read_data(&self) -> (r: u8)
        ensures
            r == (if !self@.enabled {
                0xFFu8
            } else if self@.do_out {
                0x80u8
            } else {
                0u8
            }),
    {
        if !self.enabled {
            return 0xFF;
        }
        if self.do_out {
            0x80
        } else {
            0
        }
    }

    fn decode_opcode(&mut self)
        requires
            old(self)@.memory.len() == WORD_COUNT,
        ensures
            final(self).wf(),
            final(self)@ == old(self)@.after_opcode(),
    {
        let op = self.opcode % 8;
        if op == 1 || op == 2 || op == 3 {
            self.state = EepromState::Address;
            self.bits = 0;
        } else if op == 0 {
            self.enabled = false;
            self.state = EepromState::Idle;
        } else if op == 4 {
            self.state = EepromState::EraseAll;
            self.bits = 0;
        } else if op == 5 {
            self.state = EepromState::WriteAll;
            self.bits = 0;
        } else if op == 6 {
            self.enabled = true;
            self.state = EepromState::Idle;
        } else {
            self.state = EepromState::Idle;
        }
    }

    fn decode_address(&mut self)
        requires
            old(self)@.memory.len() == WORD_COUNT,
        ensures
            final(self).wf(),
            final(self)@ == old(self)@.after_address(),
    {
        let op = (self.opcode / 2) % 4;
        let index: usize = (self.address % 64) as usize;
        if op == 1 {
            self.data = self.memory[index];
            self.do_out = false;
            self.state = EepromState::ReadData;
            self.bits = 0;
        } else if op == 0 {
            self.state = EepromState::WriteData;
            self.bits = 0;
            self.data = 0;
        } else if op == 2 {
            self.memory[index] = 0xFFFF;
            self.do_out = false;
            self.state = EepromState::Idle;
        } else {
            self.state = EepromState::Idle;
        }
    }

    #[verifier::rlimit(40)]
    fn clock(&mut self, cs: bool, di: bool)
        requires
            old(self).wf(),
        ensures
            final(self).wf(),
            final(self)@ == old(self)@.clocked(cs, di),
    {
        if !cs {
            self.state = EepromState::Idle;
            self.bits = 0;
            return;
        }
        let bit: u8 = if di { 1 } else { 0 };
        match self.state {
            EepromState::Idle => {
                if di {
                    self.state = EepromState::Start;
                    self.bits = 1;
                }
            },
            EepromState::Start => {
                self.opcode = (self.opcode << 1u8) | bit;
                self.bits = self.bits + 1;
                if self.bits == 3 {
                    self.state = EepromState::Opcode;
                    self.bits = 0;
                }
            },
            EepromState::Opcode => {
                self.opcode = (self.opcode << 1u8) | bit;
                self.bits = self.bits + 1;
                if self.bits == 3 {
                    self.decode_opcode();
                }
            },
            EepromState::Address => {
                self.address = (self.address << 1u8) | bit;
                self.bits = self.bits + 1;
                if self.bits == 7 {
                    self.decode_address();
                }
            },
            EepromState::ReadData => {
                self.do_out = self.data >= 0x8000;
                self.data = self.data << 1u16;
                self.bits = self.bits + 1;
                if self.bits == 16 {
                    self.state = EepromState::Idle;
                    self.do_out = true;
                }
            },
            EepromState::WriteData => {
                self.data = (self.data << 1u16) | (bit as u16);
                self.bits = self.bits + 1;
                if self.bits == 16 {
                    let index: usize = (self.address % 64) as usize;
                    self.memory[index] = self.data;
                    self.do_out = false;
                    self.state = EepromState::Idle;
                }
            },
            EepromState::EraseAll => {
                if self.bits == 0 {
                    if di {
                        self.bits = 1;
                    } else {
                        self.state = EepromState::Idle;
                    }
                } else if self.bits < 65 {
                    self.bits = self.bits + 1;
                } else {
                    self.memory = [0xFFFF; 64];
                    self.state = EepromState::Idle;
                    assert(self@.memory =~= Seq::new(WORD_COUNT as nat, |i: int| 0xFFFFu16));
                }
            },
            EepromState::WriteAll => {
                if self.bits < 16 {
                    self.data = (self.data << 1u16) | (bit as u16);
                    self.bits = self.bits + 1;
                } else if self.bits < 80 {
                    self.bits = self.bits + 1;
                } else {
                    self.memory = [self.data; 64];
                    self.state = EepromState::Idle;
                    assert(self@.memory =~= Seq::new(WORD_COUNT as nat, |i: int| old(self)@.data));
                }
            },
            EepromState::Erase => {},
        }
    }

    pub fn reset(&mut self)
        ensures
            final(self).wf(),
            final(self)@ == ChipState::initial(),
    {
        *self = Eeprom93c46::new();
    }

    /// Reads a word of the memory directly, for saving it.
    pub fn word(&self, index: usize) -> (r: u16)
        requires
            self.wf(),
            index < WORD_COUNT,
        ensures
            r == self@.memory[index as int],
    {
        self.memory[index]
    }
}

} // verus!
