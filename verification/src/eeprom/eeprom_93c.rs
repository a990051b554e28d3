//! The Microwire 93C46: 64 words of 16 bits behind chip select, clock
//! and one data line each way.

use vstd::prelude::*;
use crate::bits::{flag_byte, flag_of, high_byte, le16, low_byte, make_word, push_u16, read_u16, u16_at};
use crate::eeprom::{stored_word, with_word, BackupRam};

verus! {

/// Bit of the control byte that carries data in, and of the byte read
/// that carries data out.
pub const BIT_DATA: u8 = 0;

/// Bit of the control byte that carries the clock.
pub const BIT_CLK: u8 = 1;

/// Bit of the control byte that carries chip select.
pub const BIT_CS: u8 = 2;

/// Words in the memory.
pub const WORD_COUNT: usize = 64;

/// Bytes of a snapshot.
pub const SNAPSHOT_BYTES: usize = 10;

#[derive(Clone, Copy, Debug, PartialEq, Eq, Structural)]
pub enum Eeprom93CState {
    WaitStandby,
    WaitStart,
    GetOpcode,
    WriteWord,
    ReadWord,
}

#[derive(Clone, Copy, Debug)]
pub struct Eeprom93C {
    pub enabled: bool,
    /// Chip select as last seen.
    pub cs: u8,
    /// Clock as last seen.
    pub clk: u8,
    /// Data out.
    pub data: u8,
    /// Bits of the current opcode or word that have passed.
    pub cycles: u8,
    /// Writes are enabled.
    pub we: bool,
    /// Two bits of opcode above six bits of address.
    pub opcode: u8,
    pub buffer: u16,
    pub state: Eeprom93CState,
}

/// The data-in line of a control byte.
pub open spec fn din_of(data: u8) -> u8 {
    data % 2
}

/// The clock line of a control byte.
pub open spec fn clk_of(data: u8) -> u8 {
    (data / 2) % 2
}

/// The chip-select line of a control byte.
pub open spec fn cs_of(data: u8) -> u8 {
    (data / 4) % 2
}

/// The byte address of the word that an opcode names.
pub open spec fn word_addr(opcode: u8) -> int {
    (opcode % 64) * 2
}

/// The number of a state in a snapshot.
pub open spec fn state_code(state: Eeprom93CState) -> u8 {
    match state {
        Eeprom93CState::WaitStandby => 0,
        Eeprom93CState::WaitStart => 1,
        Eeprom93CState::GetOpcode => 2,
        Eeprom93CState::WriteWord => 3,
        Eeprom93CState::ReadWord => 4,
    }
}

/// The memory with every byte 0xFF.
pub open spec fn erased(sram: Seq<u8>) -> Seq<u8> {
    Seq::new(sram.len(), |i: int| 0xFFu8)
}

/// The memory with `word` in each of the first `n` of its 64 words.
pub open spec fn filled(sram: Seq<u8>, word: u16, n: int) -> Seq<u8>
    decreases n,
{
    if n <= 0 {
        sram
    } else {
        with_word(filled(sram, word, n - 1), 2 * (n - 1), word)
    }
}

impl Eeprom93C {
    /// The counters fit the state: an opcode has eight bits, a word
    /// sixteen.
    pub open spec fn valid(self) -> bool {
        match self.state {
            Eeprom93CState::GetOpcode => self.cycles < 8,
            Eeprom93CState::WriteWord => self.cycles < 16,
            Eeprom93CState::ReadWord => self.cycles < 16,
            _ => true,
        }
    }

    /// The chip after power-on, and after `init` but for `enabled`.
    pub open spec fn initial() -> Eeprom93C {
        Eeprom93C {
            enabled: false,
            cs: 0,
            clk: 0,
            data: 1,
            cycles: 0,
            we: false,
            opcode: 0,
            buffer: 0,
            state: Eeprom93CState::WaitStart,
        }
    }

    /// The chip and the memory after a whole opcode came in: READ loads
    /// the word and pulls data out low, WRITE and WRITE ALL wait for a
    /// word, ERASE and ERASE ALL fill with 0xFF if writes are enabled,
    /// and the last two switch the write enable.
    pub open spec fn decoded(self, sram: Seq<u8>) -> (Eeprom93C, Seq<u8>) {
        let op = (self.opcode / 64) % 4;
        let special = (self.opcode / 16) % 4;
        if op == 1 || (op == 0 && special == 1) {
            (Eeprom93C { buffer: 0, cycles: 0, state: Eeprom93CState::WriteWord, ..self }, sram)
        } else if op == 2 {
            (
                Eeprom93C {
                    buffer: match stored_word(sram, word_addr(self.opcode)) {
                        Some(w) => w,
                        None => self.buffer,
                    },
                    cycles: 0,
                    state: Eeprom93CState::ReadWord,
                    data: 0,
                    ..self
                },
                sram,
            )
        } else if op == 3 {
            (
                Eeprom93C { state: Eeprom93CState::WaitStandby, ..self },
                if self.we {
                    with_word(sram, word_addr(self.opcode), 0xFFFFu16)
                } else {
                    sram
                },
            )
        } else if special == 2 {
            (
                Eeprom93C { state: Eeprom93CState::WaitStandby, ..self },
                if self.we {
                    erased(sram)
                } else {
                    sram
                },
            )
        } else {
            (Eeprom93C { we: (self.opcode / 16) % 2 == 1, state: Eeprom93CState::WaitStandby, ..self }, sram)
        }
    }

    /// The chip and the memory after a rising clock edge with chip
    /// select high and `din` on the data line.
    pub open spec fn clocked(self, din: u8, sram: Seq<u8>) -> (Eeprom93C, Seq<u8>) {
        match self.state {
            Eeprom93CState::WaitStart => if din != 0 {
                (Eeprom93C { opcode: 0, cycles: 0, state: Eeprom93CState::GetOpcode, ..self }, sram)
            } else {
                (self, sram)
            },
            Eeprom93CState::GetOpcode => {
                let taken = Eeprom93C {
                    opcode: self.opcode | (din << ((7 - self.cycles) as u8)),
                    cycles: (self.cycles + 1) as u8,
                    ..self
                };
                if taken.cycles == 8 {
                    taken.decoded(sram)
                } else {
                    (taken, sram)
                }
            },
            Eeprom93CState::WriteWord => {
                let taken = Eeprom93C {
                    buffer: self.buffer | ((din as u16) << ((15 - self.cycles) as u16)),
                    cycles: (self.cycles + 1) as u8,
                    ..self
                };
                if taken.cycles == 16 {
                    (
                        Eeprom93C { state: Eeprom93CState::WaitStandby, ..taken },
                        if !taken.we {
                            sram
                        } else if (taken.opcode / 64) % 2 == 1 {
                            with_word(sram, word_addr(taken.opcode), taken.buffer)
                        } else {
                            filled(sram, taken.buffer, WORD_COUNT as int)
                        },
                    )
                } else {
                    (taken, sram)
                }
            },
            Eeprom93CState::ReadWord => {
                let shown = Eeprom93C {
                    data: ((self.buffer >> ((15 - self.cycles) as u16)) & 1) as u8,
                    cycles: (self.cycles + 1) as u8,
                    ..self
                };
                if shown.cycles == 16 {
                    let next = if shown.opcode == 255 {
                        0u8
                    } else {
                        (shown.opcode + 1) as u8
                    };
                    (
                        Eeprom93C {
                            opcode: next,
                            cycles: 0,
                            buffer: match stored_word(sram, word_addr(next)) {
                                Some(w) => w,
                                None => shown.buffer,
                            },
                            ..shown
                        },
                        sram,
                    )
                } else {
                    (shown, sram)
                }
            },
            Eeprom93CState::WaitStandby => (self, sram),
        }
    }

    /// The chip and the memory after a control byte: with chip select
    /// high a rising clock edge clocks a bit in or out; chip select
    /// falling puts the chip on standby. The lines are then remembered.
    pub open spec fn written(self, data: u8, sram: Seq<u8>) -> (Eeprom93C, Seq<u8>) {
        let stepped = if cs_of(data) != 0 {
            if clk_of(data) != 0 && self.clk == 0 {
                self.clocked(din_of(data), sram)
            } else {
                (self, sram)
            }
        } else if self.cs != 0 {
            (Eeprom93C { data: 1, state: Eeprom93CState::WaitStart, ..self }, sram)
        } else {
            (self, sram)
        };
        (Eeprom93C { cs: cs_of(data), clk: clk_of(data), ..stepped.0 }, stepped.1)
    }

    /// The byte read: chip select and data out on their lines, the clock
    /// line high.
    pub open spec fn line_byte(self) -> u8 {
        (self.cs << BIT_CS) | (self.data << BIT_DATA) | (1u8 << BIT_CLK)
    }

    /// The snapshot of the chip.
    pub open spec fn snapshot(self) -> Seq<u8> {
        seq![
            flag_of(self.enabled),
            self.cs,
            self.clk,
            self.data,
            self.cycles,
            flag_of(self.we),
            self.opcode,
        ] + le16(self.buffer) + seq![state_code(self.state)]
    }

    /// The chip that a snapshot holds, if it holds one: the state is a
    /// known one and the counter fits it.
    pub open spec fn parsed(data: Seq<u8>) -> Option<Eeprom93C> {
        if data.len() < SNAPSHOT_BYTES || data[9] > 4 {
            None
        } else {
            let chip = Eeprom93C {
                enabled: data[0] != 0,
                cs: data[1],
                clk: data[2],
                data: data[3],
                cycles: data[4],
                we: data[5] != 0,
                opcode: data[6],
                buffer: u16_at(data, 7),
                state: if data[9] == 0 {
                    Eeprom93CState::WaitStandby
                } else if data[9] == 1 {
                    Eeprom93CState::WaitStart
                } else if data[9] == 2 {
                    Eeprom93CState::GetOpcode
                } else if data[9] == 3 {
                    Eeprom93CState::WriteWord
                } else {
                    Eeprom93CState::ReadWord
                },
            };
            if chip.valid() {
                Some(chip)
            } else {
                None
            }
        }
    }

    pub fn new() -> (r: Self)
        ensures
            r == Eeprom93C::initial(),
            r.valid(),
    {
        Eeprom93C {
            enabled: false,
            cs: 0,
            clk: 0,
            data: 1,
            cycles: 0,
            we: false,
            opcode: 0,
            buffer: 0,
            state: Eeprom93CState::WaitStart,
        }
    }

    /// Puts the chip on standby, enabled, and takes the backup memory
    /// into use.
    pub fn init(&mut self, sram: &mut BackupRam)
        ensures
            *final(self) == (Eeprom93C { enabled: true, ..Eeprom93C::initial() }),
            final(self).valid(),
            *final(sram) == (BackupRam { custom: 3, on: true, ..*old(sram) }),
    {
        self.enabled = true;
        self.cs = 0;
        self.clk = 0;
        self.data = 1;
        self.cycles = 0;
        self.we = false;
        self.opcode = 0;
        self.buffer = 0;
        self.state = Eeprom93CState::WaitStart;
        sram.custom = 3;
        sram.on = true;
    }

    fn load_word(&mut self, sram: &BackupRam)
        ensures
            *final(self) == (Eeprom93C {
                buffer: match stored_word(sram.sram@, word_addr(old(self).opcode)) {
                    Some(w) => w,
                    None => old(self).buffer,
                },
                ..*old(self)
            }),
    {
        let addr: usize = ((self.opcode % 64) as usize) * 2;
        if addr + 1 < sram.sram.len() {
            self.buffer = make_word(sram.sram[addr], sram.sram[addr + 1]);
        }
    }

    fn decode(&mut self, sram: &mut BackupRam)
        ensures
            (*final(self), final(sram).sram@) == old(self).decoded(old(sram).sram@),
            final(sram).on == old(sram).on,
            final(sram).custom == old(sram).custom,
    {
        let op: u8 = (self.opcode / 64) % 4;
        let special: u8 = (self.opcode / 16) % 4;
        if op == 1 || (op == 0 && special == 1) {
            self.buffer = 0;
            self.cycles = 0;
            self.state = Eeprom93CState::WriteWord;
        } else if op == 2 {
            self.load_word(sram);
            self.cycles = 0;
            self.state = Eeprom93CState::ReadWord;
            self.data = 0;
        } else if op == 3 {
            if self.we {
                store_word(sram, ((self.opcode % 64) as usize) * 2, 0xFFFF);
            }
            self.state = Eeprom93CState::WaitStandby;
        } else if special == 2 {
            if self.we {
                erase_all(sram);
            }
            self.state = Eeprom93CState::WaitStandby;
        } else {
            self.we = (self.opcode / 16) % 2 == 1;
            self.state = Eeprom93CState::WaitStandby;
        }
    }

    fn clock(&mut self, din: u8, sram: &mut BackupRam)
        requires
            old(self).valid(),
            din <= 1,
        ensures
            (*final(self), final(sram).sram@) == old(self).clocked(din, old(sram).sram@),
            final(self).valid(),
            final(sram).on == old(sram).on,
            final(sram).custom == old(sram).custom,
    {
        match self.state {
            Eeprom93CState::WaitStart => {
                if din != 0 {
                    self.opcode = 0;
                    self.cycles = 0;
                    self.state = Eeprom93CState::GetOpcode;
                }
            },
            Eeprom93CState::GetOpcode => {
                self.opcode = self.opcode | (din << (7 - self.cycles));
                self.cycles = self.cycles + 1;
                if self.cycles == 8 {
                    self.decode(sram);
                }
            },
            Eeprom93CState::WriteWord => {
                self.buffer = self.buffer | ((din as u16) << ((15 - self.cycles) as u16));
                self.cycles = self.cycles + 1;
                if self.cycles == 16 {
                    if self.we {
                        if (self.opcode / 64) % 2 == 1 {
                            store_word(sram, ((self.opcode % 64) as usize) * 2, self.buffer);
                        } else {
                            fill_all(sram, self.buffer);
                        }
                    }
                    self.state = Eeprom93CState::WaitStandby;
                }
            },
            Eeprom93CState::ReadWord => {
                self.data = ((self.buffer >> ((15 - self.cycles) as u16)) & 1) as u8;
                self.cycles = self.cycles + 1;
                if self.cycles == 16 {
                    self.opcode = self.opcode.wrapping_add(1);
                    self.cycles = 0;
                    self.load_word(sram);
                }
            },
            Eeprom93CState::WaitStandby => {},
        }
    }

    /// Takes a control byte: chip select, clock and data in.
    pub fn write(&mut self, data: u8, sram: &mut BackupRam)
        requires
            old(self).valid(),
        ensures
            (*final(self), final(sram).sram@) == old(self).written(data, old(sram).sram@),
            final(self).valid(),
            final(sram).on == old(sram).on,
            final(sram).custom == old(sram).custom,
    {
        let cs: u8 = (data / 4) % 2;
        let clk: u8 = (data / 2) % 2;
        if cs != 0 {
            if clk != 0 && self.clk == 0 {
                self.clock(data % 2, sram);
            }
        } else if self.cs != 0 {
            self.data = 1;
            self.state = Eeprom93CState::WaitStart;
        }
        self.cs = cs;
        self.clk = clk;
    }

    /// Reads the lines.
    pub fn read(&self) -> (r: u8)
        ensures
            r == self.line_byte(),
    {
        (self.cs << BIT_CS) | (self.data << BIT_DATA) | (1u8 << BIT_CLK)
    }

    pub fn reset(&mut self)
        ensures
            *final(self) == Eeprom93C::initial(),
            final(self).valid(),
    {
        *self = Eeprom93C::new();
    }

    /// Writes the snapshot of the chip.
    pub fn save_state(&self) -> (state: Vec<u8>)
        ensures
            state@ == self.snapshot(),
            state@.len() == SNAPSHOT_BYTES,
    {
        let mut state: Vec<u8> = Vec::new();
        state.push(flag_byte(self.enabled));
        state.push(self.cs);
        state.push(self.clk);
        state.push(self.data);
        state.push(self.cycles);
        state.push(flag_byte(self.we));
        state.push(self.opcode);
        assert(state@ =~= seq![
            flag_of(self.enabled),
            self.cs,
            self.clk,
            self.data,
            self.cycles,
            flag_of(self.we),
            self.opcode,
        ]);
        push_u16(&mut state, self.buffer);
        let ghost head = state@;
        state.push(
            match self.state {
                Eeprom93CState::WaitStandby => 0,
                Eeprom93CState::WaitStart => 1,
                Eeprom93CState::GetOpcode => 2,
                Eeprom93CState::WriteWord => 3,
                Eeprom93CState::ReadWord => 4,
            },
        );
        assert(state@ =~= head + seq![state_code(self.state)]);
        state
    }

    /// Loads a snapshot. One that is too short, names no state, or
    /// holds a counter that its state cannot have is refused before
    /// anything is changed.
    pub fn load_state(&mut self, data: &[u8]) -> (ok: bool)
        ensures
            ok == Eeprom93C::parsed(data@) is Some,
            ok ==> *final(self) == Eeprom93C::parsed(data@)->0 && final(self).valid(),
            !ok ==> *final(self) == *old(self),
    {
        if data.len() < SNAPSHOT_BYTES {
            return false;
        }
        let state = if data[9] == 0 {
            Eeprom93CState::WaitStandby
        } else if data[9] == 1 {
            Eeprom93CState::WaitStart
        } else if data[9] == 2 {
            Eeprom93CState::GetOpcode
        } else if data[9] == 3 {
            Eeprom93CState::WriteWord
        } else if data[9] == 4 {
            Eeprom93CState::ReadWord
        } else {
            return false;
        };
        let chip = Eeprom93C {
            enabled: data[0] != 0,
            cs: data[1],
            clk: data[2],
            data: data[3],
            cycles: data[4],
            we: data[5] != 0,
            opcode: data[6],
            buffer: read_u16(data, 7),
            state,
        };
        let fits = match chip.state {
            Eeprom93CState::GetOpcode => chip.cycles < 8,
            Eeprom93CState::WriteWord => chip.cycles < 16,
            Eeprom93CState::ReadWord => chip.cycles < 16,
            _ => true,
        };
        if !fits {
            return false;
        }
        *self = chip;
        true
    }
}

/// Stores a word little-endian; one that does not fit is not stored.
pub fn store_word(sram: &mut BackupRam, addr: usize, word: u16)
    ensures
        final(sram).sram@ == with_word(old(sram).sram@, addr as int, word),
        final(sram).on == old(sram).on,
        final(sram).custom == old(sram).custom,
{
    let size = sram.sram.len();
    if addr < size && addr + 1 < size {
        sram.sram[addr] = low_byte(word);
        sram.sram[addr + 1] = high_byte(word);
    }
}

/// Fills the memory with 0xFF.
pub fn erase_all(sram: &mut BackupRam)
    ensures
        final(sram).sram@ == erased(old(sram).sram@),
        final(sram).on == old(sram).on,
        final(sram).custom == old(sram).custom,
{
    let n = sram.sram.len();
    let mut i: usize = 0;
    while i < n
        invariant
            i <= n,
            n == sram.sram@.len(),
            n == old(sram).sram@.len(),
            sram.on == old(sram).on,
            sram.custom == old(sram).custom,
            forall|j: int| 0 <= j < i ==> sram.sram@[j] == 0xFF,
        decreases n - i,
    {
        sram.sram[i] = 0xFF;
        i = i + 1;
    }
    assert(sram.sram@ =~= erased(old(sram).sram@));
}

/// Stores `word` in each of the 64 words.
pub fn fill_all(sram: &mut BackupRam, word: u16)
    ensures
        final(sram).sram@ == filled(old(sram).sram@, word, WORD_COUNT as int),
        final(sram).on == old(sram).on,
        final(sram).custom == old(sram).custom,
{
    let mut i: usize = 0;
    while i < WORD_COUNT
        invariant
            i <= WORD_COUNT,
            sram.on == old(sram).on,
            sram.custom == old(sram).custom,
            sram.sram@ == filled(old(sram).sram@, word, i as int),
        decreases WORD_COUNT - i,
    {
        store_word(sram, 2 * i, word);
        i = i + 1;
    }
}

} // verus!
