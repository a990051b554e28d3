//! The MegaSD flash cartridge: its enhanced bank mapper, the CD hardware
//! overlay with its command port and 2 KiB buffer, and CD audio playback.

use vstd::prelude::*;
use crate::bits::{
    bits_of_i32, flag_byte, flag_of, hi_byte, high_byte, i32_from_bits, i32_of_bits, le16, le32, lo_byte, low_byte,
    make_u32, make_word, push_bytes, push_i32, push_u16, read_i32, read_u16, u16_at, u32_at, u32_be_at, word_of,
};
use crate::chips::ChipType;
use crate::memory::cart::Cartridge;
use crate::memory::sram::SaveRam;
use crate::svp::fixed::clamp_i32;

verus! {

/// Bytes of the overlay's transfer buffer.
pub const BUFFER_SIZE: usize = 0x800;

/// First address of the transfer buffer in the overlay.
pub const BUFFER_BASE: u32 = 0x03_F800;

/// The port that switches the overlay on and off.
pub const OVERLAY_PORT: u32 = 0x03_F7FA;

/// The port that reads the result of the last command.
pub const RESULT_PORT: u32 = 0x03_F7FC;

/// The port that takes commands.
pub const COMMAND_PORT: u32 = 0x03_F7FE;

/// First address of the identification port.
pub const ID_PORT: u32 = 0x03_F7F6;

/// The word that switches the overlay on.
pub const OVERLAY_KEY: u16 = 0xCD54;

/// CD status of a drive that plays.
pub const STATUS_PLAYING: u8 = 0x00;

/// CD status of a drive that is stopped or paused.
pub const STATUS_STOPPED: u8 = 0x01;

/// Samples in a CD sector.
pub const SAMPLES_PER_SECTOR: i32 = 588;

/// Samples taken for a whole track.
pub const TRACK_SAMPLES: i32 = 176_400;

/// Samples taken for the last track of a range.
pub const LAST_TRACK_SAMPLES: i32 = 44_100;

/// Sectors of lead-in that a disc address counts and a sector number
/// does not.
pub const LEAD_IN_SECTORS: i32 = 150;

/// Bytes of a snapshot.
pub const SNAPSHOT_BYTES: usize = 2087;

pub struct MegaSD {
    /// Bank 0 may be remapped.
    pub unlock: bool,
    pub bank0: u8,
    /// The special bank register, which maps the last 512 KiB.
    pub special: u8,
    /// Writes reach the ROM area.
    pub write_enable: bool,
    /// The CD hardware overlay answers.
    pub overlay_enable: bool,
    pub playback_loop: u8,
    pub playback_loop_track: u8,
    pub playback_end_track: u8,
    /// Result of the last command.
    pub result: u16,
    pub fadeout_start_volume: u16,
    pub fadeout_samples_total: i32,
    pub fadeout_samples_count: i32,
    pub playback_samples_count: i32,
    pub playback_loop_sector: i32,
    pub playback_end_sector: i32,
    pub buffer: [u8; 0x800],
    pub cd_loaded: bool,
    pub cd_status: u8,
    pub cd_current_track: u8,
    pub cd_current_sector: i32,
    /// Version string and serial number.
    pub version: [u8; 16],
    pub cart: Option<Cartridge>,
    pub sram: Option<SaveRam>,
}

/// The sixteen bytes of version and serial number: "MEGASD", 1.4.7, two
/// reserved bytes, the serial.
pub open spec fn version_bytes() -> Seq<u8> {
    seq![
        0x4Du8,
        0x45u8,
        0x47u8,
        0x41u8,
        0x53u8,
        0x44u8,
        0x01u8,
        0x04u8,
        0x07u8,
        0x00u8,
        0xFFu8,
        0xFFu8,
        0x12u8,
        0x34u8,
        0x56u8,
        0x78u8,
    ]
}

/// Byte `i` of the identification port: "BATE".
pub open spec fn id_byte(i: int) -> u8 {
    if i == 0 {
        0x42
    } else if i == 1 {
        0x41
    } else if i == 2 {
        0x54
    } else {
        0x45
    }
}

/// A volume from 0 to 255 on the scale from 0 to 0x400.
pub open spec fn volume_of(param: u8) -> u16 {
    ((param * 0x400) / 255) as u16
}

/// A signed count one further, which stops at the top of its range.
pub open spec fn next_sector(s: i32) -> i32 {
    if s < i32::MAX {
        (s + 1) as i32
    } else {
        s
    }
}

impl MegaSD {
    /// The sector that the disc address at `off` of the buffer stands
    /// for: the big-endian address less the lead-in.
    pub open spec fn sector_at(self, off: int) -> int {
        i32_of_bits(u32_be_at(self.buffer@, off)) - LEAD_IN_SECTORS
    }

    /// The chip after a write to the bank mapper: register 0 locks and
    /// unlocks bank 0 and the write enable, register 15 is the special
    /// bank; the paging registers between hold no state here.
    pub open spec fn after_ssf2_write(self, address: u32, data: u8) -> MegaSD {
        if address % 16 == 0 {
            MegaSD { unlock: data >= 0x80, write_enable: data >= 0x80 && (data / 32) % 2 == 1, ..self }
        } else if address % 16 == 15 {
            MegaSD { special: data, ..self }
        } else {
            self
        }
    }

    /// The bank mapper takes the write: registers 0 and 15 always, a
    /// paging register at an odd address for any bank but a locked bank 0.
    pub open spec fn ssf2_takes(self, address: u32) -> bool {
        address % 16 == 0 || address % 16 == 15 || (address % 2 == 1 && ((address / 2) % 8 != 0 || self.unlock))
    }

    /// The chip after a write to the ROM write port: 'W' enables writes,
    /// anything else disables them and switches the overlay on.
    pub open spec fn after_rom_mapper_write(self, address: u32, data: u8) -> MegaSD {
        if address % 256 != 255 {
            self
        } else if data == 0x57 {
            MegaSD { write_enable: true, ..self }
        } else {
            MegaSD { write_enable: false, overlay_enable: true, ..self }
        }
    }

    /// The chip after the current track ran out: on to the next track up
    /// to the end track, else back to the loop track, else stop.
    pub open spec fn after_track_end(self) -> MegaSD {
        if self.cd_current_track < self.playback_end_track {
            let next = (self.cd_current_track + 1) as u8;
            MegaSD {
                cd_current_track: next,
                playback_samples_count: if next == self.playback_end_track {
                    LAST_TRACK_SAMPLES
                } else {
                    TRACK_SAMPLES
                },
                ..self
            }
        } else if self.playback_loop > 0 {
            MegaSD { cd_current_track: self.playback_loop_track, playback_samples_count: TRACK_SAMPLES, ..self }
        } else {
            MegaSD { cd_status: STATUS_STOPPED, ..self }
        }
    }

    /// The samples that one step of playback takes out of `remaining`:
    /// no more than the fade-out and the track have left.
    pub open spec fn step_samples(self, remaining: int) -> int {
        let by_fade = if self.fadeout_samples_count > 0 && remaining > self.fadeout_samples_count {
            self.fadeout_samples_count as int
        } else {
            remaining
        };
        if self.playback_samples_count > 0 && by_fade > self.playback_samples_count {
            self.playback_samples_count as int
        } else {
            by_fade
        }
    }

    /// The chip after one step of playback took `count` samples: a
    /// fade-out that runs out pauses, a track that runs out moves on.
    pub open spec fn after_samples(self, count: int) -> MegaSD {
        let faded = if self.fadeout_samples_count > 0 {
            MegaSD {
                fadeout_samples_count: (self.fadeout_samples_count - count) as i32,
                cd_status: if self.fadeout_samples_count - count <= 0 {
                    STATUS_STOPPED
                } else {
                    self.cd_status
                },
                ..self
            }
        } else {
            self
        };
        if faded.playback_samples_count > 0 {
            let played = MegaSD { playback_samples_count: (faded.playback_samples_count - count) as i32, ..faded };
            if played.playback_samples_count <= 0 {
                played.after_track_end()
            } else {
                played
            }
        } else {
            faded
        }
    }

    /// The chip after `remaining` samples of CD audio: playback goes on
    /// step by step until the samples are used up or the drive stops.
    pub open spec fn after_cdda(self, remaining: int) -> MegaSD
        decreases remaining,
    {
        if remaining <= 0 || self.cd_status == STATUS_STOPPED {
            self
        } else {
            let count = self.step_samples(remaining);
            if count <= 0 {
                self
            } else {
                self.after_samples(count).after_cdda(remaining - count)
            }
        }
    }

    /// The chip after a play command (0x11 once, 0x12 looped, 0x1A looped
    /// from the offset in the buffer) for track `track_param`, counted
    /// from 1. Without a disc, or for track 0, nothing happens.
    pub open spec fn after_play(self, command: u8, track_param: u8) -> MegaSD {
        if !self.cd_loaded || track_param == 0 {
            self
        } else {
            let track = (track_param - 1) as u8;
            MegaSD {
                cd_current_track: track,
                playback_end_track: track,
                cd_status: STATUS_PLAYING,
                fadeout_samples_count: if self.fadeout_samples_count > 0 {
                    0
                } else {
                    self.fadeout_samples_count
                },
                playback_samples_count: TRACK_SAMPLES,
                playback_loop: if command == 0x12 || command == 0x1A {
                    1
                } else {
                    0
                },
                playback_loop_sector: if command == 0x1A {
                    i32_of_bits(u32_be_at(self.buffer@, 0))
                } else {
                    0
                },
                playback_loop_track: track,
                ..self
            }
        }
    }

    /// The chip after a pause command: a drive that plays fades out over
    /// `fade_param` sectors, or pauses at once where that is 0.
    pub open spec fn after_pause(self, fade_param: u8) -> MegaSD {
        if self.cd_status != STATUS_PLAYING {
            self
        } else if fade_param > 0 {
            MegaSD {
                fadeout_samples_count: (fade_param * SAMPLES_PER_SECTOR) as i32,
                fadeout_samples_total: (fade_param * SAMPLES_PER_SECTOR) as i32,
                ..self
            }
        } else {
            MegaSD { fadeout_samples_count: 0, cd_status: STATUS_STOPPED, ..self }
        }
    }

    /// The chip after a command to play between two disc addresses taken
    /// from the buffer. The range must start on the disc and end behind
    /// its start.
    pub open spec fn after_play_sectors(self, data: u16) -> MegaSD {
        let start = self.sector_at(0);
        let end = self.sector_at(4);
        if !self.cd_loaded || start < 0 || end <= start {
            self
        } else {
            MegaSD {
                cd_current_sector: start as i32,
                playback_end_sector: end as i32,
                cd_status: STATUS_PLAYING,
                playback_loop: (data % 2) as u8,
                playback_loop_sector: if data % 2 != 0 {
                    clamp_i32(self.sector_at(8)) as i32
                } else {
                    self.playback_loop_sector
                },
                playback_samples_count: clamp_i32((end - start) * SAMPLES_PER_SECTOR) as i32,
                ..self
            }
        }
    }

    /// The chip after a command that leaves the buffer alone.
    pub open spec fn after_command(self, command: u8, param: u8, data: u16) -> MegaSD {
        if command == 0x11 || command == 0x12 || command == 0x1A {
            self.after_play(command, param)
        } else if command == 0x13 {
            self.after_pause(param)
        } else if command == 0x14 {
            if self.cd_status == STATUS_STOPPED {
                MegaSD { cd_status: STATUS_PLAYING, ..self }
            } else {
                self
            }
        } else if command == 0x15 {
            if self.fadeout_samples_count > 0 {
                MegaSD { fadeout_start_volume: volume_of(param), ..self }
            } else {
                self
            }
        } else if command == 0x16 {
            MegaSD {
                result: if self.cd_status == STATUS_PLAYING {
                    1
                } else {
                    0
                },
                ..self
            }
        } else if command == 0x17 {
            if self.cd_loaded && self.sector_at(0) >= 0 {
                MegaSD { cd_current_sector: self.sector_at(0) as i32, cd_status: STATUS_PLAYING, ..self }
            } else {
                self
            }
        } else if command == 0x19 {
            if self.cd_loaded && self.cd_status == STATUS_PLAYING {
                MegaSD { cd_current_sector: next_sector(self.cd_current_sector), ..self }
            } else {
                self
            }
        } else if command == 0x1B {
            self.after_play_sectors(data)
        } else if 0x1C <= command <= 0x21 {
            MegaSD { result: 0, ..self }
        } else {
            self
        }
    }

    /// The overlay knows the command.
    pub open spec fn knows_command(command: u8) -> bool {
        0x10 <= command <= 0x21
    }

    /// The byte that the overlay gives at an address, if it answers
    /// there: identification, overlay key, result, command port, buffer.
    pub open spec fn overlay_byte(self, address: u32) -> Option<u8> {
        if !self.overlay_enable {
            None
        } else if ID_PORT <= address < OVERLAY_PORT {
            Some(id_byte(address - ID_PORT))
        } else if OVERLAY_PORT <= address < RESULT_PORT {
            Some(if address % 2 == 1 { 0x54u8 } else { 0xCDu8 })
        } else if RESULT_PORT <= address < COMMAND_PORT {
            Some(if address % 2 == 1 { lo_byte(self.result) } else { hi_byte(self.result) })
        } else if COMMAND_PORT <= address < BUFFER_BASE {
            Some(0u8)
        } else if address >= BUFFER_BASE {
            Some(self.buffer[(address % 0x800) as int])
        } else {
            None
        }
    }

    /// The word that the overlay gives at an address, if it answers
    /// there. The buffer is read little-endian at the even address.
    pub open spec fn overlay_word(self, address: u32) -> Option<u16> {
        if !self.overlay_enable {
            None
        } else if address == ID_PORT {
            Some(0x4241u16)
        } else if address == ID_PORT + 2 {
            Some(0x5445u16)
        } else if address == OVERLAY_PORT {
            Some(OVERLAY_KEY)
        } else if address == RESULT_PORT {
            Some(self.result)
        } else if address == COMMAND_PORT {
            Some(0u16)
        } else if address >= BUFFER_BASE {
            Some(word_of(self.buffer[even_offset(address)], self.buffer[even_offset(address) + 1]))
        } else {
            None
        }
    }

    /// The snapshot of the chip: the registers, the playback state, the
    /// buffer and the drive state, in this order, little-endian.
    pub open spec fn snapshot(self) -> Seq<u8> {
        seq![
            flag_of(self.unlock),
            self.bank0,
            self.special,
            flag_of(self.write_enable),
            flag_of(self.overlay_enable),
            self.playback_loop,
            self.playback_loop_track,
            self.playback_end_track,
        ] + le16(self.result) + le16(self.fadeout_start_volume) + le32(bits_of_i32(self.fadeout_samples_total))
            + le32(bits_of_i32(self.fadeout_samples_count)) + le32(bits_of_i32(self.playback_samples_count)) + le32(
            bits_of_i32(self.playback_loop_sector),
        ) + le32(bits_of_i32(self.playback_end_sector)) + self.buffer@ + seq![
            flag_of(self.cd_loaded),
            self.cd_status,
            self.cd_current_track,
        ] + le32(bits_of_i32(self.cd_current_sector))
    }
}

/// The even offset in the buffer that an overlay address selects.
pub open spec fn even_offset(address: u32) -> int {
    ((address % 0x800) / 2) * 2
}

impl MegaSD {
    /// A chip after power-on: locked, the special bank at 7, the overlay
    /// off, no disc, the drive stopped.
    /// `after` is the chip after a write reached the cartridge and put
    /// `image` in place of its ROM; without write enable or cartridge
    /// the chip stays as it is.
    pub open spec fn cart_written_to(self, image: Seq<u8>, after: MegaSD) -> bool {
        match self.cart {
            Some(c) => if self.write_enable {
                after == (MegaSD { cart: after.cart, ..self }) && (after.cart matches Some(d) && d == (Cartridge {
                    rom: d.rom,
                    ..c
                }) && d.rom@ == image)
            } else {
                after == self
            },
            None => after == self,
        }
    }

    /// The chip is in its power-on state: registers and counters at
    /// their defaults, the buffer clear, no disc, no cartridge.
    pub open spec fn powered_on(self) -> bool {
        &&& !self.unlock
        &&& self.bank0 == 0
        &&& self.special == 0x07
        &&& !self.write_enable
        &&& !self.overlay_enable
        &&& self.playback_loop == 0
        &&& self.playback_loop_track == 0
        &&& self.playback_end_track == 0
        &&& self.result == 0
        &&& self.fadeout_start_volume == 0x400
        &&& self.fadeout_samples_total == 0
        &&& self.fadeout_samples_count == 0
        &&& self.playback_samples_count == 0
        &&& self.playback_loop_sector == 0
        &&& self.playback_end_sector == 0
        &&& self.buffer@ == Seq::new(BUFFER_SIZE as nat, |i: int| 0u8)
        &&& !self.cd_loaded
        &&& self.cd_status == STATUS_STOPPED
        &&& self.cd_current_track == 0
        &&& self.cd_current_sector == 0
        &&& self.version@ == version_bytes()
        &&& self.cart is None
        &&& self.sram is None
    }

    pub fn new() -> (r: Self)
        ensures
            r.powered_on(),
    {
        let version: [u8; 16] = [
            0x4D,
            0x45,
            0x47,
            0x41,
            0x53,
            0x44,
            0x01,
            0x04,
            0x07,
            0x00,
            0xFF,
            0xFF,
            0x12,
            0x34,
            0x56,
            0x78,
        ];
        assert(version@ =~= version_bytes());
        let r = MegaSD {
            unlock: false,
            bank0: 0,
            special: 0x07,
            write_enable: false,
            overlay_enable: false,
            playback_loop: 0,
            playback_loop_track: 0,
            playback_end_track: 0,
            result: 0,
            fadeout_start_volume: 0x400,
            fadeout_samples_total: 0,
            fadeout_samples_count: 0,
            playback_samples_count: 0,
            playback_loop_sector: 0,
            playback_end_sector: 0,
            buffer: [0; 0x800],
            cd_loaded: false,
            cd_status: STATUS_STOPPED,
            cd_current_track: 0,
            cd_current_sector: 0,
            version,
            cart: None,
            sram: None,
        };
        assert(r.buffer@ =~= Seq::new(BUFFER_SIZE as nat, |i: int| 0u8));
        r
    }

    /// Plugs the cartridge and its save memory into the chip.
    pub fn init(&mut self, cart: Cartridge, sram: Option<SaveRam>)
        ensures
            *final(self) == (MegaSD { cart: Some(cart), sram, ..*old(self) }),
    {
        self.cart = Some(cart);
        self.sram = sram;
    }

    /// Puts the chip back into its power-on state, cartridge unplugged.
    pub fn reset(&mut self)
        ensures
            final(self).powered_on(),
    {
        *self = MegaSD::new();
        self.cd_status = STATUS_STOPPED;
    }

    /// A write to the enhanced bank mapper. Returns whether the mapper
    /// took it.
    pub fn enhanced_ssf2_mapper_write(&mut self, address: u32, data: u8) -> (taken: bool)
        ensures
            taken == old(self).ssf2_takes(address),
            *final(self) == old(self).after_ssf2_write(address, data),
    {
        let reg: u32 = address % 16;
        if reg == 0 {
            if data >= 0x80 {
                self.unlock = true;
                self.write_enable = (data / 32) % 2 == 1;
            } else {
                self.unlock = false;
                self.write_enable = false;
            }
            self.update_last_bank_mapping();
            true
        } else if reg == 15 {
            self.special = data;
            self.update_last_bank_mapping();
            true
        } else {
            if address % 2 == 1 {
                let bank: u32 = ((address / 2) % 8) * 8;
                if bank != 0 || self.unlock {
                    return true;
                }
            }
            false
        }
    }

    /// A write to the ROM write port, the last byte of a 256-byte page.
    /// Returns whether the address is that port.
    pub fn rom_mapper_write(&mut self, address: u32, data: u8) -> (taken: bool)
        ensures
            taken == (address % 256 == 255),
            *final(self) == old(self).after_rom_mapper_write(address, data),
    {
        if address % 256 == 255 {
            if data == 0x57 {
                self.write_enable = true;
            } else {
                self.write_enable = false;
                self.overlay_enable = true;
            }
            true
        } else {
            false
        }
    }

    /// Plays `samples` samples of CD audio. Counts that do not fit a
    /// signed 32-bit number play nothing.
    pub fn update_cdda(&mut self, samples: u32)
        ensures
            *final(self) == old(self).after_cdda(i32_of_bits(samples) as int),
    {
        let mut remaining: i32 = i32_from_bits(samples);
        while remaining > 0 && self.cd_status != STATUS_STOPPED
            invariant
                self.after_cdda(remaining as int) == old(self).after_cdda(i32_of_bits(samples) as int),
            decreases remaining,
        {
            let mut count: i32 = remaining;
            if self.fadeout_samples_count > 0 && count > self.fadeout_samples_count {
                count = self.fadeout_samples_count;
            }
            if self.playback_samples_count > 0 && count > self.playback_samples_count {
                count = self.playback_samples_count;
            }
            assert(count == self.step_samples(remaining as int));
            let ghost before = *self;
            remaining = remaining - count;
            if self.fadeout_samples_count > 0 {
                self.fadeout_samples_count = self.fadeout_samples_count - count;
                if self.fadeout_samples_count <= 0 {
                    self.cd_status = STATUS_STOPPED;
                }
            }
            if self.playback_samples_count > 0 {
                self.playback_samples_count = self.playback_samples_count - count;
                if self.playback_samples_count <= 0 {
                    self.handle_track_transition();
                }
            }
            assert(*self == before.after_samples(count as int));
        }
    }

    fn handle_track_transition(&mut self)
        ensures
            *final(self) == old(self).after_track_end(),
    {
        if self.cd_current_track < self.playback_end_track {
            self.cd_current_track = self.cd_current_track + 1;
            if self.cd_current_track == self.playback_end_track {
                self.playback_samples_count = LAST_TRACK_SAMPLES;
            } else {
                self.playback_samples_count = TRACK_SAMPLES;
            }
        } else if self.playback_loop > 0 {
            self.cd_current_track = self.playback_loop_track;
            self.playback_samples_count = TRACK_SAMPLES;
        } else {
            self.cd_status = STATUS_STOPPED;
        }
    }

    /// A byte write to the overlay: only the buffer takes bytes, and only
    /// with the overlay on.
    pub fn ctrl_write_byte(&mut self, address: u32, data: u8) -> (taken: bool)
        ensures
            taken == (old(self).overlay_enable && address >= BUFFER_BASE),
            taken ==> *final(self) == (MegaSD { buffer: final(self).buffer, ..*old(self) }) && final(self).buffer@
                == old(self).buffer@.update((address % 0x800) as int, data),
            !taken ==> *final(self) == *old(self),
    {
        if self.overlay_enable {
            if address >= BUFFER_BASE {
                let buffer_addr: usize = (address % 0x800) as usize;
                self.buffer[buffer_addr] = data;
                return true;
            }
        }
        false
    }

    /// A word write to the overlay: the overlay port switches the overlay
    /// by its key; with the overlay on, the command port runs a command
    /// and the buffer takes the word little-endian.
    pub fn ctrl_write_word(&mut self, address: u32, data: u16) -> (taken: bool)
        ensures
            address == OVERLAY_PORT ==> taken && *final(self) == (MegaSD {
                overlay_enable: data == OVERLAY_KEY,
                ..*old(self)
            }),
            address != OVERLAY_PORT && !old(self).overlay_enable ==> !taken && *final(self) == *old(self),
            address == COMMAND_PORT && old(self).overlay_enable ==> taken == MegaSD::knows_command(hi_byte(data)),
            address == COMMAND_PORT && old(self).overlay_enable && hi_byte(data) != 0x10 ==> *final(self) == old(self).after_command(hi_byte(data), lo_byte(data), data),
            address == COMMAND_PORT && old(self).overlay_enable && hi_byte(data) == 0x10 ==> *final(self) == (
            MegaSD { buffer: final(self).buffer, ..*old(self) }) && final(self).buffer@ == old(self).version@
                + old(self).buffer@.subrange(16, BUFFER_SIZE as int),
            address != OVERLAY_PORT && address != COMMAND_PORT && old(self).overlay_enable ==> taken == (address
                >= BUFFER_BASE),
            address != OVERLAY_PORT && address != COMMAND_PORT && old(self).overlay_enable && address
                >= BUFFER_BASE ==> *final(self) == (MegaSD { buffer: final(self).buffer, ..*old(self) }) && final(self).buffer@ == old(self).buffer@.update(even_offset(address), lo_byte(data)).update(
                even_offset(address) + 1,
                hi_byte(data),
            ),
            address != OVERLAY_PORT && address != COMMAND_PORT && address < BUFFER_BASE ==> *final(self) == *old(self),
    {
        if address == OVERLAY_PORT {
            self.overlay_enable = data == OVERLAY_KEY;
            return true;
        }
        if self.overlay_enable {
            if address == COMMAND_PORT {
                let command: u8 = high_byte(data);
                let param: u8 = low_byte(data);
                if command == 0x10 {
                    self.copy_version();
                    return true;
                } else if command == 0x11 || command == 0x12 || command == 0x1A {
                    self.handle_cdda_play_command(command, param);
                    return true;
                } else if command == 0x13 {
                    self.handle_cdda_pause_command(param);
                    return true;
                } else if command == 0x14 {
                    if self.cd_status == STATUS_STOPPED {
                        self.cd_status = STATUS_PLAYING;
                    }
                    return true;
                } else if command == 0x15 {
                    let volume: u16 = ((param as u32) * 0x400 / 255) as u16;
                    if self.fadeout_samples_count > 0 {
                        self.fadeout_start_volume = volume;
                    }
                    return true;
                } else if command == 0x16 {
                    self.result = if self.cd_status == STATUS_PLAYING {
                        0x01
                    } else {
                        0x00
                    };
                    return true;
                } else if command == 0x17 {
                    if self.cd_loaded {
                        let lba: i64 = (i32_from_bits(self.read_big_endian_u32(0)) as i64) - (LEAD_IN_SECTORS as i64);
                        if lba >= 0 {
                            self.cd_current_sector = lba as i32;
                            self.cd_status = STATUS_PLAYING;
                        }
                    }
                    return true;
                } else if command == 0x18 {
                    return true;
                } else if command == 0x19 {
                    if self.cd_loaded && self.cd_status == STATUS_PLAYING {
                        if self.cd_current_sector < i32::MAX {
                            self.cd_current_sector = self.cd_current_sector + 1;
                        }
                    }
                    return true;
                } else if command == 0x1B {
                    self.handle_cdda_play_from_sector_command(data);
                    return true;
                } else if 0x1C <= command && command <= 0x21 {
                    self.result = 0;
                    return true;
                } else {
                    return false;
                }
            }
            if address >= BUFFER_BASE {
                let buffer_addr: usize = (((address % 0x800) / 2) * 2) as usize;
                self.buffer[buffer_addr] = low_byte(data);
                self.buffer[buffer_addr + 1] = high_byte(data);
                return true;
            }
        }
        false
    }

    /// Puts version and serial number at the start of the buffer.
    fn copy_version(&mut self)
        ensures
            *final(self) == (MegaSD { buffer: final(self).buffer, ..*old(self) }),
            final(self).buffer@ == old(self).version@ + old(self).buffer@.subrange(16, BUFFER_SIZE as int),
    {
        let mut i: usize = 0;
        while i < 16
            invariant
                i <= 16,
                *self == (MegaSD { buffer: self.buffer, ..*old(self) }),
                forall|j: int| 0 <= j < i ==> self.buffer[j] == old(self).version[j],
                forall|j: int| i <= j < BUFFER_SIZE ==> self.buffer[j] == old(self).buffer[j],
            decreases 16 - i,
        {
            self.buffer[i] = self.version[i];
            i = i + 1;
        }
        assert(self.buffer@ =~= old(self).version@ + old(self).buffer@.subrange(16, BUFFER_SIZE as int));
    }

    /// A byte read of the overlay.
    pub fn ctrl_read_byte(&self, address: u32) -> (r: Option<u8>)
        ensures
            r == self.overlay_byte(address),
    {
        if self.overlay_enable {
            if ID_PORT <= address && address < OVERLAY_PORT {
                let i: u32 = address - ID_PORT;
                return Some(
                    if i == 0 {
                        0x42
                    } else if i == 1 {
                        0x41
                    } else if i == 2 {
                        0x54
                    } else {
                        0x45
                    },
                );
            }
            if OVERLAY_PORT <= address && address < RESULT_PORT {
                return Some(if address % 2 == 1 { 0x54 } else { 0xCD });
            }
            if RESULT_PORT <= address && address < COMMAND_PORT {
                return Some(if address % 2 == 1 { low_byte(self.result) } else { high_byte(self.result) });
            }
            if COMMAND_PORT <= address && address < BUFFER_BASE {
                return Some(0x00);
            }
            if address >= BUFFER_BASE {
                let buffer_addr: usize = (address % 0x800) as usize;
                return Some(self.buffer[buffer_addr]);
            }
        }
        None
    }

    /// A word read of the overlay.
    pub fn ctrl_read_word(&self, address: u32) -> (r: Option<u16>)
        ensures
            r == self.overlay_word(address),
    {
        if self.overlay_enable {
            if address == ID_PORT {
                return Some(0x4241);
            }
            if address == ID_PORT + 2 {
                return Some(0x5445);
            }
            if address == OVERLAY_PORT {
                return Some(OVERLAY_KEY);
            }
            if address == RESULT_PORT {
                return Some(self.result);
            }
            if address == COMMAND_PORT {
                return Some(0x0000);
            }
            if address >= BUFFER_BASE {
                let buffer_addr: usize = (((address % 0x800) / 2) * 2) as usize;
                return Some(make_word(self.buffer[buffer_addr], self.buffer[buffer_addr + 1]));
            }
        }
        None
    }

    /// A byte write to the PCM chip: it sits on the low data lines, so
    /// only odd addresses reach it.
    pub fn pcm_write_byte(&mut self, address: u32, data: u8, cycles: u32) -> (taken: bool)
        ensures
            taken == (address % 2 == 1),
            *final(self) == *old(self),
    {
        if address % 2 == 1 {
            let pcm_addr: u16 = ((address / 2) % 0x2000) as u16;
            self.write_pcm_register(pcm_addr, data, cycles);
            return true;
        }
        false
    }

    /// A word write to the PCM chip: the low byte is written.
    pub fn pcm_write_word(&mut self, address: u32, data: u16, cycles: u32) -> (taken: bool)
        ensures
            taken,
            *final(self) == *old(self),
    {
        let pcm_addr: u16 = ((address / 2) % 0x2000) as u16;
        self.write_pcm_register(pcm_addr, low_byte(data), cycles);
        true
    }

    /// A byte read of the PCM chip, at odd addresses only.
    pub fn pcm_read_byte(&self, address: u32, cycles: u32) -> (r: Option<u8>)
        ensures
            r == (if address % 2 == 1 {
                Some(0u8)
            } else {
                None
            }),
    {
        if address % 2 == 1 {
            let pcm_addr: u16 = ((address / 2) % 0x2000) as u16;
            return Some(self.read_pcm_register(pcm_addr, cycles));
        }
        None
    }

    /// A word read of the PCM chip: the byte in the low half.
    pub fn pcm_read_word(&self, address: u32, cycles: u32) -> (r: Option<u16>)
        ensures
            r == Some(0u16),
    {
        let pcm_addr: u16 = ((address / 2) % 0x2000) as u16;
        Some(self.read_pcm_register(pcm_addr, cycles) as u16)
    }

    /// The PCM chip itself is not part of this chip; its registers take
    /// writes and keep nothing.
    fn write_pcm_register(&mut self, addr: u16, data: u8, cycles: u32)
        ensures
            *final(self) == *old(self),
    {
    }

    fn read_pcm_register(&self, addr: u16, cycles: u32) -> (r: u8)
        ensures
            r == 0,
    {
        0x00
    }

    fn handle_cdda_play_command(&mut self, command: u8, track_param: u8)
        ensures
            *final(self) == old(self).after_play(command, track_param),
    {
        if self.cd_loaded {
            if track_param >= 1 {
                let track: u8 = track_param - 1;
                self.cd_current_track = track;
                self.playback_end_track = track;
                self.cd_status = STATUS_PLAYING;
                if self.fadeout_samples_count > 0 {
                    self.fadeout_samples_count = 0;
                }
                self.playback_samples_count = TRACK_SAMPLES;
                self.playback_loop = if command == 0x12 || command == 0x1A {
                    1
                } else {
                    0
                };
                if command == 0x1A {
                    self.playback_loop_sector = i32_from_bits(self.read_big_endian_u32(0));
                } else {
                    self.playback_loop_sector = 0;
                }
                self.playback_loop_track = track;
            }
        }
    }

    fn handle_cdda_pause_command(&mut self, fade_param: u8)
        ensures
            *final(self) == old(self).after_pause(fade_param),
    {
        if self.cd_status == STATUS_PLAYING {
            self.fadeout_samples_count = (fade_param as i32) * SAMPLES_PER_SECTOR;
            if self.fadeout_samples_count > 0 {
                self.fadeout_samples_total = self.fadeout_samples_count;
            } else {
                self.cd_status = STATUS_STOPPED;
            }
        }
    }

    fn handle_cdda_play_from_sector_command(&mut self, data: u16)
        ensures
            *final(self) == old(self).after_play_sectors(data),
    {
        if self.cd_loaded {
            let start: i64 = (i32_from_bits(self.read_big_endian_u32(0)) as i64) - (LEAD_IN_SECTORS as i64);
            let end: i64 = (i32_from_bits(self.read_big_endian_u32(4)) as i64) - (LEAD_IN_SECTORS as i64);
            let loop_flag: u8 = (data % 2) as u8;
            if start >= 0 && end > start {
                if loop_flag != 0 {
                    let loop_sector: i64 = (i32_from_bits(self.read_big_endian_u32(8)) as i64) - (
                    LEAD_IN_SECTORS as i64);
                    self.playback_loop_sector = crate::svp::fixed::saturate_i32(loop_sector);
                }
                self.cd_current_sector = start as i32;
                self.playback_end_sector = end as i32;
                self.cd_status = STATUS_PLAYING;
                self.playback_loop = loop_flag;
                self.playback_samples_count = crate::svp::fixed::saturate_i32(
                    (end - start) * (SAMPLES_PER_SECTOR as i64),
                );
            }
        }
    }

    fn read_big_endian_u32(&self, offset: usize) -> (r: u32)
        requires
            offset + 3 < BUFFER_SIZE,
        ensures
            r == u32_be_at(self.buffer@, offset as int),
    {
        make_u32(self.buffer[offset + 3], self.buffer[offset + 2], self.buffer[offset + 1], self.buffer[offset])
    }

    /// What answers the last 512 KiB follows from the special bank
    /// register alone; there is nothing to keep beside it.
    fn update_last_bank_mapping(&mut self)
        ensures
            *final(self) == *old(self),
    {
    }

    /// Puts a disc into the drive.
    pub fn load_disc(&mut self) -> (ok: bool)
        ensures
            ok,
            *final(self) == (MegaSD { cd_loaded: true, ..*old(self) }),
    {
        self.cd_loaded = true;
        true
    }

    /// Takes the disc out; the drive stops.
    pub fn eject_disc(&mut self)
        ensures
            *final(self) == (MegaSD { cd_loaded: false, cd_status: STATUS_STOPPED, ..*old(self) }),
    {
        self.cd_loaded = false;
        self.cd_status = STATUS_STOPPED;
    }

    /// Writes the snapshot of the chip.
    pub fn save_state(&self) -> (state: Vec<u8>)
        ensures
            state@ == self.snapshot(),
            state@.len() == SNAPSHOT_BYTES,
    {
        let mut state: Vec<u8> = Vec::new();
        state.push(flag_byte(self.unlock));
        state.push(self.bank0);
        state.push(self.special);
        state.push(flag_byte(self.write_enable));
        state.push(flag_byte(self.overlay_enable));
        state.push(self.playback_loop);
        state.push(self.playback_loop_track);
        state.push(self.playback_end_track);
        assert(state@ =~= seq![
            flag_of(self.unlock),
            self.bank0,
            self.special,
            flag_of(self.write_enable),
            flag_of(self.overlay_enable),
            self.playback_loop,
            self.playback_loop_track,
            self.playback_end_track,
        ]);
        push_u16(&mut state, self.result);
        push_u16(&mut state, self.fadeout_start_volume);
        push_i32(&mut state, self.fadeout_samples_total);
        push_i32(&mut state, self.fadeout_samples_count);
        push_i32(&mut state, self.playback_samples_count);
        push_i32(&mut state, self.playback_loop_sector);
        push_i32(&mut state, self.playback_end_sector);
        push_bytes(&mut state, self.buffer.as_slice());
        let ghost head = state@;
        state.push(flag_byte(self.cd_loaded));
        state.push(self.cd_status);
        state.push(self.cd_current_track);
        assert(state@ =~= head + seq![flag_of(self.cd_loaded), self.cd_status, self.cd_current_track]);
        push_i32(&mut state, self.cd_current_sector);
        state
    }

    /// `after` is the chip after a snapshot was loaded, and `ok` whether it
    /// was taken: one that is too short is refused and changes nothing.
    pub open spec fn loads_to(self, data: Seq<u8>, ok: bool, after: Self) -> bool {
        &&& ok == (data.len() >= SNAPSHOT_BYTES)
        &&& !ok ==> after == self
        &&& ok ==> after == (MegaSD { unlock: data[0] != 0, bank0: data[1], special: data[2], write_enable: data[3] != 0, overlay_enable: data[4] != 0, playback_loop: data[5], playback_loop_track: data[6], playback_end_track: data[7], result: u16_at(data, 8), fadeout_start_volume: u16_at(data, 10), fadeout_samples_total: i32_of_bits(u32_at(data, 12)), fadeout_samples_count: i32_of_bits(u32_at(data, 16)), playback_samples_count: i32_of_bits(u32_at(data, 20)), playback_loop_sector: i32_of_bits(u32_at(data, 24)), playback_end_sector: i32_of_bits(u32_at(data, 28)), buffer: after.buffer, cd_loaded: data[2080] != 0, cd_status: data[2081], cd_current_track: data[2082], cd_current_sector: i32_of_bits(u32_at(data, 2083)), ..self }) && after.buffer@ == data.subrange(32, 2080)
    }

    /// Loads a snapshot. One shorter than a snapshot is refused before
    /// anything is changed. The cartridge and the version stay.
    pub fn load_state(&mut self, data: &[u8]) -> (ok: bool)
        ensures
            old(self).loads_to(data@, ok, *final(self)),
    {
        if data.len() < SNAPSHOT_BYTES {
            return false;
        }
        self.unlock = data[0] != 0;
        self.bank0 = data[1];
        self.special = data[2];
        self.write_enable = data[3] != 0;
        self.overlay_enable = data[4] != 0;
        self.playback_loop = data[5];
        self.playback_loop_track = data[6];
        self.playback_end_track = data[7];
        self.result = read_u16(data, 8);
        self.fadeout_start_volume = read_u16(data, 10);
        self.fadeout_samples_total = read_i32(data, 12);
        self.fadeout_samples_count = read_i32(data, 16);
        self.playback_samples_count = read_i32(data, 20);
        self.playback_loop_sector = read_i32(data, 24);
        self.playback_end_sector = read_i32(data, 28);
        self.cd_loaded = data[2080] != 0;
        self.cd_status = data[2081];
        self.cd_current_track = data[2082];
        self.cd_current_sector = read_i32(data, 2083);
        let ghost scalars = *self;
        let mut i: usize = 0;
        while i < BUFFER_SIZE
            invariant
                i <= BUFFER_SIZE,
                data@.len() >= SNAPSHOT_BYTES,
                *self == (MegaSD { buffer: self.buffer, ..scalars }),
                forall|j: int| 0 <= j < i ==> self.buffer[j] == data@[32 + j],
            decreases BUFFER_SIZE - i,
        {
            self.buffer[i] = data[32 + i];
            i = i + 1;
        }
        assert(self.buffer@ =~= data@.subrange(32, 2080));
        true
    }

    /// Whether a cartridge is plugged in.
    pub fn is_enabled(&self) -> (r: bool)
        ensures
            r == self.cart is Some,
    {
        self.cart.is_some()
    }

    pub fn overlay_enabled(&self) -> (r: bool)
        ensures
            r == self.overlay_enable,
    {
        self.overlay_enable
    }

    pub fn write_enabled(&self) -> (r: bool)
        ensures
            r == self.write_enable,
    {
        self.write_enable
    }
}

/// The chip on the bus: the overlay in front of the cartridge.
pub struct MegaSDMemoryHandler {
    pub megasd: MegaSD,
}

impl MegaSDMemoryHandler {
    /// The byte read at an address: the overlay's where it answers, else
    /// the cartridge's, else 0xFF.
    pub open spec fn byte_at(&self, address: u32) -> u8 {
        match self.megasd.overlay_byte(address) {
            Some(v) => v,
            None => match self.megasd.cart {
                Some(c) => c.rom_byte(address),
                None => 0xFF,
            },
        }
    }

    /// The word read at an address: the overlay's where it answers, else
    /// the cartridge's, else 0xFFFF.
    pub open spec fn word_at(&self, address: u32) -> u16 {
        match self.megasd.overlay_word(address) {
            Some(v) => v,
            None => match self.megasd.cart {
                Some(c) => c.rom_word(address),
                None => 0xFFFF,
            },
        }
    }

    pub fn new() -> (r: Self)
        ensures
            r.megasd.powered_on(),
    {
        MegaSDMemoryHandler { megasd: MegaSD::new() }
    }

    pub fn init(&mut self, cart: Cartridge, sram: Option<SaveRam>)
        ensures
            final(self).megasd == (MegaSD { cart: Some(cart), sram, ..old(self).megasd }),
    {
        self.megasd.init(cart, sram);
    }

    /// Puts the chip back into its power-on state, cartridge unplugged.
    pub fn reset(&mut self)
        ensures
            final(self).megasd.powered_on(),
    {
        self.megasd.reset();
    }

    pub fn read_byte(&self, address: u32) -> (r: u8)
        ensures
            r == self.byte_at(address),
    {
        match self.megasd.ctrl_read_byte(address) {
            Some(value) => value,
            None => match &self.megasd.cart {
                Some(cart) => cart.read_byte(address),
                None => 0xFF,
            },
        }
    }

    pub fn read_word(&self, address: u32) -> (r: u16)
        ensures
            r == self.word_at(address),
    {
        match self.megasd.ctrl_read_word(address) {
            Some(value) => value,
            None => match &self.megasd.cart {
                Some(cart) => cart.read_word(address),
                None => 0xFFFF,
            },
        }
    }

    /// `after` is the handler after a byte write: the bank mapper takes
    /// it, or the ROM write port, or the overlay's buffer; what none of
    /// them takes reaches the cartridge if writes are enabled.
    pub open spec fn byte_write_to(self, address: u32, value: u8, after: Self) -> bool {
        let m = self.megasd;
        if m.ssf2_takes(address) {
            after.megasd == m.after_ssf2_write(address, value)
        } else if address % 256 == 255 {
            after.megasd == m.after_rom_mapper_write(address, value)
        } else if m.overlay_enable && address >= BUFFER_BASE {
            after.megasd == (MegaSD { buffer: after.megasd.buffer, ..m }) && after.megasd.buffer@ == m.buffer@.update(
                (address % 0x800) as int,
                value,
            )
        } else {
            m.cart_written_to(
                match m.cart {
                    Some(c) => c.rom_with(address, value),
                    None => Seq::empty(),
                },
                after.megasd,
            )
        }
    }

    /// A byte write: the bank mapper is asked first, then the ROM write
    /// port, then the overlay; what none of them takes reaches the
    /// cartridge if writes are enabled.
    pub fn write_byte(&mut self, address: u32, value: u8)
        ensures
            old(self).byte_write_to(address, value, *final(self)),
    {
        if self.megasd.enhanced_ssf2_mapper_write(address, value) {
            return;
        }
        if self.megasd.rom_mapper_write(address, value) {
            return;
        }
        if self.megasd.ctrl_write_byte(address, value) {
            return;
        }
        if self.megasd.write_enabled() {
            match self.megasd.cart.as_mut() {
                Some(cart) => {
                    cart.write_byte(address, value);
                },
                None => {},
            }
        }
    }

    /// `after` is the handler after a word write: the overlay takes its
    /// key, a command it knows and a word of its buffer; what it does
    /// not take reaches the cartridge if writes are enabled. A command
    /// that the overlay does not know still leaves its mark before the
    /// word goes on.
    pub open spec fn word_write_to(self, address: u32, value: u16, after: Self) -> bool {
        let m = self.megasd;
        let image = match m.cart {
            Some(c) => c.rom_with_word(address, value),
            None => Seq::empty(),
        };
        if address == OVERLAY_PORT {
            after.megasd == (MegaSD { overlay_enable: value == OVERLAY_KEY, ..m })
        } else if !m.overlay_enable {
            m.cart_written_to(image, after.megasd)
        } else if address == COMMAND_PORT {
            if hi_byte(value) == 0x10 {
                after.megasd == (MegaSD { buffer: after.megasd.buffer, ..m }) && after.megasd.buffer@ == m.version@
                    + m.buffer@.subrange(16, BUFFER_SIZE as int)
            } else if MegaSD::knows_command(hi_byte(value)) {
                after.megasd == m.after_command(hi_byte(value), lo_byte(value), value)
            } else {
                m.after_command(hi_byte(value), lo_byte(value), value).cart_written_to(image, after.megasd)
            }
        } else if address >= BUFFER_BASE {
            after.megasd == (MegaSD { buffer: after.megasd.buffer, ..m }) && after.megasd.buffer@ == m.buffer@.update(
                even_offset(address),
                lo_byte(value),
            ).update(even_offset(address) + 1, hi_byte(value))
        } else {
            m.cart_written_to(image, after.megasd)
        }
    }

    /// A word write: the overlay is asked first; what it does not take
    /// reaches the cartridge if writes are enabled.
    pub fn write_word(&mut self, address: u32, value: u16)
        ensures
            old(self).word_write_to(address, value, *final(self)),
    {
        if self.megasd.ctrl_write_word(address, value) {
            return;
        }
        if self.megasd.write_enabled() {
            match self.megasd.cart.as_mut() {
                Some(cart) => {
                    cart.write_word(address, value);
                },
                None => {},
            }
        }
    }

    pub fn pcm_write_byte(&mut self, address: u32, value: u8, cycles: u32)
        ensures
            final(self).megasd == old(self).megasd,
    {
        self.megasd.pcm_write_byte(address, value, cycles);
    }

    pub fn pcm_write_word(&mut self, address: u32, value: u16, cycles: u32)
        ensures
            final(self).megasd == old(self).megasd,
    {
        self.megasd.pcm_write_word(address, value, cycles);
    }

    pub fn pcm_read_byte(&self, address: u32, cycles: u32) -> (r: u8)
        ensures
            r == 0,
    {
        match self.megasd.pcm_read_byte(address, cycles) {
            Some(v) => v,
            None => 0,
        }
    }

    pub fn pcm_read_word(&self, address: u32, cycles: u32) -> (r: u16)
        ensures
            r == 0,
    {
        match self.megasd.pcm_read_word(address, cycles) {
            Some(v) => v,
            None => 0,
        }
    }

    pub fn update_cdda(&mut self, samples: u32)
        ensures
            final(self).megasd == old(self).megasd.after_cdda(i32_of_bits(samples) as int),
    {
        self.megasd.update_cdda(samples);
    }

    pub fn get_megasd(&self) -> (r: &MegaSD)
        ensures
            *r == self.megasd,
    {
        &self.megasd
    }

    pub fn get_megasd_mut(&mut self) -> (r: &mut MegaSD)
        ensures
            *r == old(self).megasd,
            final(self).megasd == *final(r),
    {
        &mut self.megasd
    }

    pub fn get_type(&self) -> (t: ChipType)
        ensures
            t == ChipType::MegaSD,
    {
        ChipType::MegaSD
    }
}

} // verus!
