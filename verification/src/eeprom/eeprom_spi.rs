//! The SPI EEPROM (25xxx, 95xxx): 64 KiB behind chip select, clock, hold
//! and one data line each way, with a status register that guards
//! writes.

use vstd::prelude::*;
use crate::bits::{le16, le32, push_u16, push_u32, read_u16, read_u32, u16_at, u32_at};
use crate::eeprom::{with_byte, BackupRam};

verus! {

/// Bytes of a snapshot.
pub const SNAPSHOT_BYTES: usize = 13;

/// Bytes of a page, within which a sequence of writes wraps.
pub const PAGE_SIZE: u16 = 128;

/// WRSR, write the status register.
pub const OP_WRITE_STATUS: u8 = 0x01;

/// WRITE, write bytes from an address on.
pub const OP_WRITE: u8 = 0x02;

/// READ, read bytes from an address on.
pub const OP_READ: u8 = 0x03;

/// WRDI, clear the write-enable latch.
pub const OP_WRITE_DISABLE: u8 = 0x04;

/// RDSR, read the status register.
pub const OP_READ_STATUS: u8 = 0x05;

/// WREN, set the write-enable latch.
pub const OP_WRITE_ENABLE: u8 = 0x06;

#[derive(Clone, Copy, Debug, PartialEq, Eq, Structural)]
pub enum EepromSPIState {
    Standby,
    GetOpcode,
    GetAddress,
    WriteByte,
    ReadByte,
}

#[derive(Clone, Copy, Debug)]
pub struct EepromSPI {
    /// Chip select (active low) as last seen.
    pub cs: u8,
    /// Clock as last seen.
    pub clk: u8,
    /// Data out.
    pub out: u8,
    /// Status register: bit 1 is the write-enable latch, bits 2 and 3
    /// choose the protected block.
    pub status: u8,
    pub opcode: u8,
    pub buffer: u8,
    pub addr: u16,
    /// Bits of the current byte or address that have passed.
    pub cycles: u32,
    pub state: EepromSPIState,
}

/// The data-in line of a control byte.
pub open spec fn din_of(data: u8) -> u8 {
    data % 2
}

/// The clock line of a control byte.
pub open spec fn clk_of(data: u8) -> u8 {
    (data / 2) % 2
}

/// The hold line (active low) of a control byte.
pub open spec fn hold_of(data: u8) -> u8 {
    (data / 4) % 2
}

/// The chip-select line (active low) of a control byte.
pub open spec fn cs_of(data: u8) -> u8 {
    (data / 8) % 2
}

/// The number of a state in a snapshot.
pub open spec fn state_code(state: EepromSPIState) -> u8 {
    match state {
        EepromSPIState::Standby => 0,
        EepromSPIState::GetOpcode => 1,
        EepromSPIState::GetAddress => 2,
        EepromSPIState::WriteByte => 3,
        EepromSPIState::ReadByte => 4,
    }
}

/// The address after `addr` within its page.
pub open spec fn next_in_page(addr: u16) -> u16 {
    ((addr / PAGE_SIZE) * PAGE_SIZE + (addr % PAGE_SIZE + 1) % (PAGE_SIZE as int)) as u16
}

/// The address after `addr`, wrapping at 64 KiB.
pub open spec fn next_addr(addr: u16) -> u16 {
    if addr == 0xFFFF {
        0
    } else {
        (addr + 1) as u16
    }
}

/// The block-protect bits of a status register let a write at `addr`
/// through: 0 protects nothing, 1 the upper quarter, 2 the upper half,
/// 3 everything.
pub open spec fn unprotected(status: u8, addr: u16) -> bool {
    let block = (status / 4) % 4;
    if block == 0 {
        true
    } else if block == 1 {
        addr < 0xC000
    } else if block == 2 {
        addr < 0x8000
    } else {
        false
    }
}

impl EepromSPI {
    /// The counter fits the state: a byte has eight bits, an address
    /// sixteen.
    pub open spec fn valid(self) -> bool {
        match self.state {
            EepromSPIState::GetOpcode => self.cycles < 8,
            EepromSPIState::WriteByte => self.cycles < 8,
            EepromSPIState::ReadByte => self.cycles < 8,
            EepromSPIState::GetAddress => self.cycles < 16,
            EepromSPIState::Standby => true,
        }
    }

    /// The chip after power-on.
    pub open spec fn initial() -> EepromSPI {
        EepromSPI {
            cs: 0,
            clk: 0,
            out: 1,
            status: 0,
            opcode: 0,
            buffer: 0,
            addr: 0,
            cycles: 0,
            state: EepromSPIState::GetOpcode,
        }
    }

    /// The chip after a whole opcode came in.
    pub open spec fn decoded(self) -> EepromSPI {
        if self.opcode == OP_WRITE_STATUS {
            EepromSPI { buffer: 0, state: EepromSPIState::WriteByte, ..self }
        } else if self.opcode == OP_WRITE || self.opcode == OP_READ {
            EepromSPI { addr: 0, state: EepromSPIState::GetAddress, ..self }
        } else if self.opcode == OP_WRITE_DISABLE {
            EepromSPI { status: self.status & 0xFD, state: EepromSPIState::Standby, ..self }
        } else if self.opcode == OP_READ_STATUS {
            EepromSPI { buffer: self.status, state: EepromSPIState::ReadByte, ..self }
        } else if self.opcode == OP_WRITE_ENABLE {
            EepromSPI { status: self.status | 0x02, state: EepromSPIState::Standby, ..self }
        } else {
            EepromSPI { state: EepromSPIState::Standby, ..self }
        }
    }

    /// The chip and the memory after a rising clock edge with the chip
    /// selected and `din` on the data line. Opcode, address and data
    /// come in from the highest bit down.
    pub open spec fn clocked(self, din: u8, sram: Seq<u8>) -> (EepromSPI, Seq<u8>) {
        match self.state {
            EepromSPIState::GetOpcode => {
                let opcode = self.opcode | din;
                if self.cycles + 1 == 8 {
                    ((EepromSPI { opcode, cycles: 0, ..self }).decoded(), sram)
                } else {
                    (EepromSPI { opcode: opcode << 1u8, cycles: (self.cycles + 1) as u32, ..self }, sram)
                }
            },
            EepromSPIState::GetAddress => {
                let addr = self.addr | (din as u16);
                if self.cycles + 1 == 16 {
                    if self.opcode % 2 == 1 {
                        (
                            EepromSPI {
                                addr,
                                cycles: 0,
                                buffer: if addr < sram.len() {
                                    sram[addr as int]
                                } else {
                                    self.buffer
                                },
                                state: EepromSPIState::ReadByte,
                                ..self
                            },
                            sram,
                        )
                    } else {
                        (EepromSPI { addr, cycles: 0, buffer: 0, state: EepromSPIState::WriteByte, ..self }, sram)
                    }
                } else {
                    (EepromSPI { addr: addr << 1u16, cycles: (self.cycles + 1) as u32, ..self }, sram)
                }
            },
            EepromSPIState::WriteByte => {
                let buffer = self.buffer | din;
                if self.cycles + 1 == 8 {
                    if self.opcode % 2 == 1 {
                        (
                            EepromSPI {
                                buffer,
                                cycles: 0,
                                status: (self.status & 0x02) | (buffer & 0x0C),
                                state: EepromSPIState::Standby,
                                ..self
                            },
                            sram,
                        )
                    } else {
                        (
                            EepromSPI { buffer: 0, cycles: 0, addr: next_in_page(self.addr), ..self },
                            if (self.status / 2) % 2 == 1 && unprotected(self.status, self.addr) {
                                with_byte(sram, self.addr as int, buffer)
                            } else {
                                sram
                            },
                        )
                    }
                } else {
                    (EepromSPI { buffer: buffer << 1u8, cycles: (self.cycles + 1) as u32, ..self }, sram)
                }
            },
            EepromSPIState::ReadByte => {
                let out = (self.buffer >> ((7 - self.cycles) as u8)) & 1;
                if self.cycles + 1 == 8 {
                    if self.opcode == OP_READ {
                        (
                            EepromSPI {
                                out,
                                cycles: 0,
                                addr: next_addr(self.addr),
                                buffer: if next_addr(self.addr) < sram.len() {
                                    sram[next_addr(self.addr) as int]
                                } else {
                                    self.buffer
                                },
                                ..self
                            },
                            sram,
                        )
                    } else {
                        (EepromSPI { out, cycles: 0, ..self }, sram)
                    }
                } else {
                    (EepromSPI { out, cycles: (self.cycles + 1) as u32, ..self }, sram)
                }
            },
            EepromSPIState::Standby => (self, sram),
        }
    }

    /// The chip and the memory after a control byte. With hold low the
    /// chip does nothing; with chip select high it waits for an opcode;
    /// selected, it takes a bit on each rising clock edge. The lines are
    /// then remembered.
    pub open spec fn written(self, data: u8, sram: Seq<u8>) -> (EepromSPI, Seq<u8>) {
        let stepped = if hold_of(data) == 0 {
            (self, sram)
        } else if cs_of(data) != 0 {
            (EepromSPI { cycles: 0, out: 1, opcode: 0, state: EepromSPIState::GetOpcode, ..self }, sram)
        } else if clk_of(data) != 0 && self.clk == 0 {
            self.clocked(din_of(data), sram)
        } else {
            (self, sram)
        };
        (EepromSPI { cs: cs_of(data), clk: clk_of(data), ..stepped.0 }, stepped.1)
    }

    /// The snapshot of the chip.
    pub open spec fn snapshot(self) -> Seq<u8> {
        seq![self.cs, self.clk, self.out, self.status, self.opcode, self.buffer] + le16(self.addr) + le32(
            self.cycles,
        ) + seq![state_code(self.state)]
    }

    /// The chip that a snapshot holds, if it holds one: the state is a
    /// known one and the counter fits it.
    pub open spec fn parsed(data: Seq<u8>) -> Option<EepromSPI> {
        if data.len() < SNAPSHOT_BYTES || data[12] > 4 {
            None
        } else {
            let chip = EepromSPI {
                cs: data[0],
                clk: data[1],
                out: data[2],
                status: data[3],
                opcode: data[4],
                buffer: data[5],
                addr: u16_at(data, 6),
                cycles: u32_at(data, 8),
                state: if data[12] == 0 {
                    EepromSPIState::Standby
                } else if data[12] == 1 {
                    EepromSPIState::GetOpcode
                } else if data[12] == 2 {
                    EepromSPIState::GetAddress
                } else if data[12] == 3 {
                    EepromSPIState::WriteByte
                } else {
                    EepromSPIState::ReadByte
                },
            };
            if chip.valid() {
                Some(chip)
            } else {
                None
            }
        }
    }

    pub fn new() -> (r: Self)
        ensures
            r == EepromSPI::initial(),
            r.valid(),
    {
        EepromSPI {
            cs: 0,
            clk: 0,
            out: 1,
            status: 0,
            opcode: 0,
            buffer: 0,
            addr: 0,
            cycles: 0,
            state: EepromSPIState::GetOpcode,
        }
    }

    /// Puts the chip into its initial state and takes the backup memory
    /// into use.
    pub fn init(&mut self, sram: &mut BackupRam)
        ensures
            *final(self) == EepromSPI::initial(),
            final(self).valid(),
            *final(sram) == (BackupRam { custom: 2, on: true, ..*old(sram) }),
    {
        *self = EepromSPI::new();
        sram.custom = 2;
        sram.on = true;
    }

    fn decode(&mut self)
        requires
            old(self).cycles == 0,
        ensures
            *final(self) == old(self).decoded(),
            final(self).valid(),
    {
        if self.opcode == OP_WRITE_STATUS {
            self.buffer = 0;
            self.state = EepromSPIState::WriteByte;
        } else if self.opcode == OP_WRITE || self.opcode == OP_READ {
            self.addr = 0;
            self.state = EepromSPIState::GetAddress;
        } else if self.opcode == OP_WRITE_DISABLE {
            self.status = self.status & 0xFD;
            self.state = EepromSPIState::Standby;
        } else if self.opcode == OP_READ_STATUS {
            self.buffer = self.status;
            self.state = EepromSPIState::ReadByte;
        } else if self.opcode == OP_WRITE_ENABLE {
            self.status = self.status | 0x02;
            self.state = EepromSPIState::Standby;
        } else {
            self.state = EepromSPIState::Standby;
        }
    }

    fn clock(&mut self, din: u8, sram: &mut BackupRam)
        requires
            old(self).valid(),
            din <= 1,
        ensures
            (*final(self), final(sram).sram@) == old(self).clocked(din, old(sram).sram@),
            final(self).valid(),
            final(sram).on == old(sram).on,
            final(sram).custom == old(sram).custom,
    {
        match self.state {
            EepromSPIState::GetOpcode => {
                self.opcode = self.opcode | din;
                self.cycles = self.cycles + 1;
                if self.cycles == 8 {
                    self.cycles = 0;
                    self.decode();
                } else {
                    self.opcode = self.opcode << 1u8;
                }
            },
            EepromSPIState::GetAddress => {
                self.addr = self.addr | (din as u16);
                self.cycles = self.cycles + 1;
                if self.cycles == 16 {
                    self.cycles = 0;
                    if self.opcode % 2 == 1 {
                        let a: usize = self.addr as usize;
                        if a < sram.sram.len() {
                            self.buffer = sram.sram[a];
                        }
                        self.state = EepromSPIState::ReadByte;
                    } else {
                        self.buffer = 0;
                        self.state = EepromSPIState::WriteByte;
                    }
                } else {
                    self.addr = self.addr << 1u16;
                }
            },
            EepromSPIState::WriteByte => {
                self.buffer = self.buffer | din;
                self.cycles = self.cycles + 1;
                if self.cycles == 8 {
                    self.cycles = 0;
                    if self.opcode % 2 == 1 {
                        self.status = (self.status & 0x02) | (self.buffer & 0x0C);
                        self.state = EepromSPIState::Standby;
                    } else {
                        if (self.status / 2) % 2 == 1 {
                            let block: u8 = (self.status / 4) % 4;
                            let open = if block == 0 {
                                true
                            } else if block == 1 {
                                self.addr < 0xC000
                            } else if block == 2 {
                                self.addr < 0x8000
                            } else {
                                false
                            };
                            if open {
                                let a: usize = self.addr as usize;
                                if a < sram.sram.len() {
                                    sram.sram[a] = self.buffer;
                                }
                            }
                        }
                        self.buffer = 0;
                        self.addr = (self.addr / PAGE_SIZE) * PAGE_SIZE + (self.addr % PAGE_SIZE + 1) % PAGE_SIZE;
                    }
                } else {
                    self.buffer = self.buffer << 1u8;
                }
            },
            EepromSPIState::ReadByte => {
                self.out = (self.buffer >> ((7 - self.cycles) as u8)) & 1;
                self.cycles = self.cycles + 1;
                if self.cycles == 8 {
                    self.cycles = 0;
                    if self.opcode == OP_READ {
                        self.addr = self.addr.wrapping_add(1);
                        let a: usize = self.addr as usize;
                        if a < sram.sram.len() {
                            self.buffer = sram.sram[a];
                        }
                    }
                }
            },
            EepromSPIState::Standby => {},
        }
    }

    /// Takes a control byte: chip select, hold, clock and data in.
    pub fn write(&mut self, data: u8, sram: &mut BackupRam)
        requires
            old(self).valid(),
        ensures
            (*final(self), final(sram).sram@) == old(self).written(data, old(sram).sram@),
            final(self).valid(),
            final(sram).on == old(sram).on,
            final(sram).custom == old(sram).custom,
    {
        let cs: u8 = (data / 8) % 2;
        let clk: u8 = (data / 2) % 2;
        if (data / 4) % 2 != 0 {
            if cs != 0 {
                self.cycles = 0;
                self.out = 1;
                self.opcode = 0;
                self.state = EepromSPIState::GetOpcode;
            } else if clk != 0 && self.clk == 0 {
                self.clock(data % 2, sram);
            }
        }
        self.cs = cs;
        self.clk = clk;
    }

    /// Reads the data-out line.
    pub fn read(&self, address: u32) -> (r: u32)
        ensures
            r == self.out,
    {
        self.out as u32
    }

    pub fn reset(&mut self)
        ensures
            *final(self) == EepromSPI::initial(),
            final(self).valid(),
    {
        *self = EepromSPI::new();
    }

    /// Writes the snapshot of the chip.
    pub fn save_state(&self) -> (state: Vec<u8>)
        ensures
            state@ == self.snapshot(),
            state@.len() == SNAPSHOT_BYTES,
    {
        let mut state: Vec<u8> = Vec::new();
        state.push(self.cs);
        state.push(self.clk);
        state.push(self.out);
        state.push(self.status);
        state.push(self.opcode);
        state.push(self.buffer);
        assert(state@ =~= seq![self.cs, self.clk, self.out, self.status, self.opcode, self.buffer]);
        push_u16(&mut state, self.addr);
        push_u32(&mut state, self.cycles);
        let ghost head = state@;
        state.push(
            match self.state {
                EepromSPIState::Standby => 0,
                EepromSPIState::GetOpcode => 1,
                EepromSPIState::GetAddress => 2,
                EepromSPIState::WriteByte => 3,
                EepromSPIState::ReadByte => 4,
            },
        );
        assert(state@ =~= head + seq![state_code(self.state)]);
        state
    }

    /// Loads a snapshot. One that is too short, names no state, or
    /// holds a counter that its state cannot have is refused before
    /// anything is changed.
    pub fn load_state(&mut self, data: &[u8]) -> (ok: bool)
        ensures
            ok == EepromSPI::parsed(data@) is Some,
            ok ==> *final(self) == EepromSPI::parsed(data@)->0 && final(self).valid(),
            !ok ==> *final(self) == *old(self),
    {
        if data.len() < SNAPSHOT_BYTES {
            return false;
        }
        let state = if data[12] == 0 {
            EepromSPIState::Standby
        } else if data[12] == 1 {
            EepromSPIState::GetOpcode
        } else if data[12] == 2 {
            EepromSPIState::GetAddress
        } else if data[12] == 3 {
            EepromSPIState::WriteByte
        } else if data[12] == 4 {
            EepromSPIState::ReadByte
        } else {
            return false;
        };
        let chip = EepromSPI {
            cs: data[0],
            clk: data[1],
            out: data[2],
            status: data[3],
            opcode: data[4],
            buffer: data[5],
            addr: read_u16(data, 6),
            cycles: read_u32(data, 8),
            state,
        };
        let fits = match chip.state {
            EepromSPIState::GetOpcode => chip.cycles < 8,
            EepromSPIState::WriteByte => chip.cycles < 8,
            EepromSPIState::ReadByte => chip.cycles < 8,
            EepromSPIState::GetAddress => chip.cycles < 16,
            EepromSPIState::Standby => true,
        };
        if !fits {
            return false;
        }
        *self = chip;
        true
    }
}

} // verus!
