//! The Paprium ASIC: 64 KiB of work memory behind a command register,
//! a data decoder, a sprite scaler and a sample mixer with an echo line.

use std::sync::Arc;
use vstd::prelude::*;
use crate::bits::{
    bit_at, bit_of, bits_of_i32, hi_byte, high_byte, i32_bits, i32_of_bits, le32, lo_byte, low_byte, make_word, push_bytes,
    push_i32, push_u32, read_i32, read_u32, u32_at, word_of,
};
use crate::chips::ChipType;
use crate::mapper::sega32x::CartridgeError;
use crate::memory::bus::MemoryBus;
use crate::svp::fixed::{abs_int, trunc_div};

verus! {

pub const PAPRIUM_BOSS1: u8 = 0x17;

pub const PAPRIUM_BOSS2: u8 = 0x21;

pub const PAPRIUM_BOSS3: u8 = 0x22;

pub const PAPRIUM_BOSS4: u8 = 0x23;

/// Bytes of work memory.
pub const RAM_BYTES: usize = 0x1_0000;

/// Bytes of the decoder's buffer.
pub const DECODER_BYTES: usize = 0x1_0000;

/// Bytes of the scaler's buffer: 64 columns of 64 texels.
pub const SCALER_BYTES: usize = 0x1000;

/// Bytes of music memory.
pub const MUSIC_BYTES: usize = 0x8000;

/// Bytes of the extended sprite list: 14 entries of 8.
pub const EXPS_BYTES: usize = 112;

/// Bytes of object memory.
pub const OBJ_BYTES: usize = 0x8_0000;

/// Bytes of wave memory.
pub const WAVE_BYTES: usize = 0x18_0000;

/// Frame pointers of the sprite engine.
pub const OBJ_SLOTS: usize = 0x31;

/// Samples of each echo line.
pub const ECHO_SAMPLES: usize = 12000;

/// Voices that play sound effects.
pub const SFX_VOICES: usize = 8;

/// Voices that play music.
pub const MUSIC_VOICES: usize = 26;

/// Address of the command register.
pub const COMMAND_REGISTER: usize = 0x1FEA;

/// First and last address of the window that holds a command's
/// arguments.
pub const ARGS_FIRST: usize = 0x1E10;

pub const ARGS_LAST: usize = 0x1E30;

/// First address of the window that shows the decoder's buffer.
pub const DECODER_WINDOW: usize = 0xC000;

/// First address past that window.
pub const DECODER_WINDOW_END: usize = 0xE000;

/// First and last address of the window that reads as noise.
pub const NOISE_FIRST: usize = 0x1880;

pub const NOISE_LAST: usize = 0x1AFF;

/// Samples that a sound effect plays before it ends or starts over.
pub const SFX_LENGTH: i32 = 1000;

/// What a read past the end of a memory gives.
pub const OPEN_BYTE: u8 = 0xFF;

pub const OPEN_WORD: u16 = 0xFFFF;

/// A voice of the mixer.
#[derive(Clone, Copy, Debug, PartialEq, Eq, Structural)]
pub struct PapriumVoice {
    pub volume: i32,
    pub panning: i32,
    pub flags: i32,
    pub voice_type: i32,
    pub size: i32,
    pub ptr: i32,
    pub tick: i32,
    pub loop_flag: i32,
    pub echo: i32,
    pub program: i32,
    pub count: i32,
    pub time: i32,
    pub start: i32,
    pub num: i32,
    pub decay: i32,
    pub decay2: i32,
    pub release: i32,
    pub sustain: i32,
    pub duration: i32,
    pub velocity: i32,
    pub keyon: i32,
    pub key_type: i32,
    pub pitch: i32,
    pub cents: i32,
    pub modulation: i32,
}

/// A voice that plays nothing.
pub open spec fn silent_voice() -> PapriumVoice {
    PapriumVoice {
        volume: 0,
        panning: 0,
        flags: 0,
        voice_type: 0,
        size: 0,
        ptr: 0,
        tick: 0,
        loop_flag: 0,
        echo: 0,
        program: 0,
        count: 0,
        time: 0,
        start: 0,
        num: 0,
        decay: 0,
        decay2: 0,
        release: 0,
        sustain: 0,
        duration: 0,
        velocity: 0,
        keyon: 0,
        key_type: 0,
        pitch: 0,
        cents: 0,
        modulation: 0,
    }
}

impl PapriumVoice {
    /// A voice that the mixer can play without leaving its ranges: a
    /// volume of 16 bits, a phase below one step, and a position no
    /// further than the effect's length from its start.
    pub open spec fn playable(self) -> bool {
        &&& 0 <= self.volume <= 0xFFFF
        &&& 0 <= self.tick < 0x1_0000
        &&& 0 <= self.size
        &&& 0 <= self.ptr
        &&& 0 <= self.start <= 0x1000_0000
        &&& self.ptr + self.size <= self.start + SFX_LENGTH
    }

    pub fn default() -> (r: Self)
        ensures
            r == silent_voice(),
    {
        PapriumVoice {
            volume: 0,
            panning: 0,
            flags: 0,
            voice_type: 0,
            size: 0,
            ptr: 0,
            tick: 0,
            loop_flag: 0,
            echo: 0,
            program: 0,
            count: 0,
            time: 0,
            start: 0,
            num: 0,
            decay: 0,
            decay2: 0,
            release: 0,
            sustain: 0,
            duration: 0,
            velocity: 0,
            keyon: 0,
            key_type: 0,
            pitch: 0,
            cents: 0,
            modulation: 0,
        }
    }
}

/// The ASIC as a value.
pub struct AsicState {
    pub ram: Seq<u8>,
    pub decoder_ram: Seq<u8>,
    pub scaler_ram: Seq<u8>,
    pub music_ram: Seq<u8>,
    pub exps_ram: Seq<u8>,
    pub sfx: Seq<PapriumVoice>,
    pub music: Seq<PapriumVoice>,
    pub music_section: i32,
    pub audio_tick: i32,
    pub music_segment: i32,
    pub out_l: i32,
    pub out_r: i32,
    pub audio_flags: i32,
    pub sfx_volume: i32,
    pub music_volume: i32,
    pub decoder_mode: i32,
    pub decoder_ptr: i32,
    pub decoder_size: i32,
    pub draw_src: i32,
    pub draw_dst: i32,
    pub obj: Seq<i32>,
    pub echo_l: Seq<i32>,
    pub echo_r: Seq<i32>,
    pub echo_ptr: i32,
    pub echo_pan: i32,
    pub music_track: i32,
    pub mp3_ptr: i32,
    pub music_tick: i32,
    pub obj_ram: Seq<u8>,
    pub wave_ram: Seq<u8>,
    pub music_ptr: u32,
    pub wave_ptr: u32,
    pub sfx_ptr: u32,
    pub tile_ptr: u32,
    pub sprite_ptr: u32,
    pub enabled: bool,
    pub tmss: bool,
    pub fast_dma_hack: bool,
    pub skip_boot1: bool,
    pub cmd_count: i32,
    pub rom: Seq<u8>,
    pub debug_sprite: bool,
    pub debug_mode: bool,
    pub debug_cheat: bool,
}

/// A count one further, which wraps at the top of its range.
pub open spec fn next_count(c: i32) -> i32 {
    if c == i32::MAX {
        i32::MIN
    } else {
        (c + 1) as i32
    }
}

/// The byte of a memory at an address, or the open bus behind its end.
pub open spec fn byte_or_open(memory: Seq<u8>, addr: int) -> u8 {
    if 0 <= addr < memory.len() {
        memory[addr]
    } else {
        OPEN_BYTE
    }
}

/// `memory` with the bytes of `source` from `from` on copied to `to`
/// and behind it, as far as both reach and no further than `limit`
/// bytes.
pub open spec fn copied(memory: Seq<u8>, to: int, source: Seq<u8>, from: int, limit: int) -> Seq<u8> {
    Seq::new(
        memory.len(),
        |i: int|
            if to <= i < to + limit && from + (i - to) < source.len() {
                source[from + (i - to)]
            } else {
                memory[i]
            },
    )
}

impl AsicState {
    /// The memories have their sizes, and what the mixer works on lies
    /// in its ranges: volumes of eight bits, outputs of sixteen.
    pub open spec fn valid(self) -> bool {
        &&& self.ram.len() == RAM_BYTES
        &&& self.decoder_ram.len() == DECODER_BYTES
        &&& self.scaler_ram.len() == SCALER_BYTES
        &&& self.music_ram.len() == MUSIC_BYTES
        &&& self.exps_ram.len() == EXPS_BYTES
        &&& self.sfx.len() == SFX_VOICES
        &&& self.music.len() == MUSIC_VOICES
        &&& self.obj.len() == OBJ_SLOTS
        &&& self.echo_l.len() == ECHO_SAMPLES
        &&& self.echo_r.len() == ECHO_SAMPLES
        &&& self.obj_ram.len() == OBJ_BYTES
        &&& self.wave_ram.len() == WAVE_BYTES
        &&& 0 <= self.echo_ptr < ECHO_SAMPLES
        &&& 0 <= self.sfx_volume <= 0xFF
        &&& 0 <= self.music_volume <= 0xFF
        &&& -32768 <= self.out_l <= 32767
        &&& -32768 <= self.out_r <= 32767
        &&& 0 <= self.mp3_ptr <= 0x10_0001
        &&& 0 <= self.music_tick < 0x1_0000
        &&& 0 <= self.music_section < 0x100
        &&& forall|i: int| 0 <= i < SFX_VOICES ==> (#[trigger] self.sfx[i]).playable()
    }

    /// The ASIC as it is made for a ROM: memories zero, voices silent,
    /// both volumes at 0x80, switched off.
    pub open spec fn fresh(rom: Seq<u8>) -> AsicState {
        AsicState {
            ram: Seq::new(RAM_BYTES as nat, |i: int| 0u8),
            decoder_ram: Seq::new(DECODER_BYTES as nat, |i: int| 0u8),
            scaler_ram: Seq::new(SCALER_BYTES as nat, |i: int| 0u8),
            music_ram: Seq::new(MUSIC_BYTES as nat, |i: int| 0u8),
            exps_ram: Seq::new(EXPS_BYTES as nat, |i: int| 0u8),
            sfx: Seq::new(SFX_VOICES as nat, |i: int| silent_voice()),
            music: Seq::new(MUSIC_VOICES as nat, |i: int| silent_voice()),
            music_section: 0,
            audio_tick: 0,
            music_segment: 0,
            out_l: 0,
            out_r: 0,
            audio_flags: 0,
            sfx_volume: 0x80,
            music_volume: 0x80,
            decoder_mode: 0,
            decoder_ptr: 0,
            decoder_size: 0,
            draw_src: 0,
            draw_dst: 0,
            obj: Seq::new(OBJ_SLOTS as nat, |i: int| 0i32),
            echo_l: Seq::new(ECHO_SAMPLES as nat, |i: int| 0i32),
            echo_r: Seq::new(ECHO_SAMPLES as nat, |i: int| 0i32),
            echo_ptr: 0,
            echo_pan: 0,
            music_track: 0,
            mp3_ptr: 0,
            music_tick: 0,
            obj_ram: Seq::new(OBJ_BYTES as nat, |i: int| 0u8),
            wave_ram: Seq::new(WAVE_BYTES as nat, |i: int| 0u8),
            music_ptr: 0,
            wave_ptr: 0,
            sfx_ptr: 0,
            tile_ptr: 0,
            sprite_ptr: 0,
            enabled: false,
            tmss: true,
            fast_dma_hack: false,
            skip_boot1: true,
            cmd_count: 0,
            rom,
            debug_sprite: false,
            debug_mode: false,
            debug_cheat: false,
        }
    }

    /// An address of the window that reads as noise, outside the
    /// decoder's window.
    pub open spec fn reads_noise(self, address: int) -> bool {
        NOISE_FIRST <= address <= NOISE_LAST
    }

    /// An address that shows the decoder's buffer: the window is open
    /// while the decoder holds data.
    pub open spec fn reads_decoder(self, address: int) -> bool {
        DECODER_WINDOW <= address < DECODER_WINDOW_END && self.decoder_size > 0
    }

    /// The byte read at an address, where `noise` is what the noise
    /// window gives: the decoder's buffer through its window, zero from
    /// the status register, work memory elsewhere.
    pub open spec fn byte_with(self, address: int, noise: u8) -> u8 {
        if self.reads_decoder(address) {
            byte_or_open(self.decoder_ram, address - DECODER_WINDOW)
        } else if address == 0x1800 {
            0
        } else if self.reads_noise(address) {
            noise
        } else {
            byte_or_open(self.ram, address)
        }
    }

    /// The word read at an address: three registers read as constants,
    /// everything else big-endian from work memory.
    pub open spec fn word_at(self, address: int) -> u16 {
        if address == 0x1FE4 {
            0xFFBB
        } else if address == 0x1FE6 {
            0xBCFF
        } else if address == 0x1FEA {
            0x7FFF
        } else if 0 <= address && address + 1 < self.ram.len() {
            word_of(self.ram[address + 1], self.ram[address])
        } else {
            OPEN_WORD
        }
    }

    /// The two words from an address on as one value, the first word
    /// high.
    pub open spec fn long_at(self, address: int) -> u32 {
        (self.word_at(address) * 0x1_0000 + self.word_at(address + 2)) as u32
    }

    /// The argument count after a store at an address.
    pub open spec fn counted(self, address: int) -> i32 {
        if ARGS_FIRST <= address <= ARGS_LAST {
            next_count(self.cmd_count)
        } else {
            self.cmd_count
        }
    }

    /// The ASIC after a byte was stored in work memory. A store past
    /// the end does nothing; one into the argument window is counted.
    pub open spec fn stored_byte(self, address: int, value: u8) -> AsicState {
        if 0 <= address < self.ram.len() {
            AsicState { ram: self.ram.update(address, value), cmd_count: self.counted(address), ..self }
        } else {
            self
        }
    }

    /// The ASIC after a word was stored in work memory, big-endian.
    pub open spec fn stored_word(self, address: int, value: u16) -> AsicState {
        if 0 <= address && address + 1 < self.ram.len() {
            AsicState {
                ram: self.ram.update(address, hi_byte(value)).update(address + 1, lo_byte(value)),
                cmd_count: self.counted(address),
                ..self
            }
        } else {
            self
        }
    }
}

/// The ASIC.
pub struct PapriumAsic {
    pub ram: Vec<u8>,
    pub decoder_ram: Vec<u8>,
    pub scaler_ram: Vec<u8>,
    pub music_ram: Vec<u8>,
    pub exps_ram: Vec<u8>,
    pub sfx: [PapriumVoice; 8],
    pub music: [PapriumVoice; 26],
    pub music_section: i32,
    pub audio_tick: i32,
    pub music_segment: i32,
    pub out_l: i32,
    pub out_r: i32,
    pub audio_flags: i32,
    pub sfx_volume: i32,
    pub music_volume: i32,
    pub decoder_mode: i32,
    pub decoder_ptr: i32,
    pub decoder_size: i32,
    pub draw_src: i32,
    pub draw_dst: i32,
    pub obj: Vec<i32>,
    pub echo_l: Vec<i32>,
    pub echo_r: Vec<i32>,
    pub echo_ptr: i32,
    pub echo_pan: i32,
    pub music_track: i32,
    pub mp3_ptr: i32,
    pub music_tick: i32,
    pub obj_ram: Vec<u8>,
    pub wave_ram: Vec<u8>,
    pub music_ptr: u32,
    pub wave_ptr: u32,
    pub sfx_ptr: u32,
    pub tile_ptr: u32,
    pub sprite_ptr: u32,
    pub enabled: bool,
    pub tmss: bool,
    pub fast_dma_hack: bool,
    pub skip_boot1: bool,
    pub cmd_count: i32,
    pub rom_data: Arc<Vec<u8>>,
    pub bus: Option<Arc<MemoryBus>>,
    pub rom_dir: String,
    pub debug_sprite: bool,
    pub debug_mode: bool,
    pub debug_cheat: bool,
}

impl View for PapriumAsic {
    type V = AsicState;

    open spec fn view(&self) -> AsicState {
        AsicState {
            ram: self.ram@,
            decoder_ram: self.decoder_ram@,
            scaler_ram: self.scaler_ram@,
            music_ram: self.music_ram@,
            exps_ram: self.exps_ram@,
            sfx: self.sfx@,
            music: self.music@,
            music_section: self.music_section,
            audio_tick: self.audio_tick,
            music_segment: self.music_segment,
            out_l: self.out_l,
            out_r: self.out_r,
            audio_flags: self.audio_flags,
            sfx_volume: self.sfx_volume,
            music_volume: self.music_volume,
            decoder_mode: self.decoder_mode,
            decoder_ptr: self.decoder_ptr,
            decoder_size: self.decoder_size,
            draw_src: self.draw_src,
            draw_dst: self.draw_dst,
            obj: self.obj@,
            echo_l: self.echo_l@,
            echo_r: self.echo_r@,
            echo_ptr: self.echo_ptr,
            echo_pan: self.echo_pan,
            music_track: self.music_track,
            mp3_ptr: self.mp3_ptr,
            music_tick: self.music_tick,
            obj_ram: self.obj_ram@,
            wave_ram: self.wave_ram@,
            music_ptr: self.music_ptr,
            wave_ptr: self.wave_ptr,
            sfx_ptr: self.sfx_ptr,
            tile_ptr: self.tile_ptr,
            sprite_ptr: self.sprite_ptr,
            enabled: self.enabled,
            tmss: self.tmss,
            fast_dma_hack: self.fast_dma_hack,
            skip_boot1: self.skip_boot1,
            cmd_count: self.cmd_count,
            rom: self.rom_data@,
            debug_sprite: self.debug_sprite,
            debug_mode: self.debug_mode,
            debug_cheat: self.debug_cheat,
        }
    }
}

/// A byte that chance picks.
///
/// Calls `rand::random::<u8>()`, which draws from the thread's
/// generator. Nothing is claimed of the byte.
#[verifier::external_body]
fn random_byte() -> (r: u8) {
    rand::random::<u8>()
}

/// The quotient of a value by a positive divisor, rounded toward zero.
pub fn div_toward_zero(n: i32, d: i32) -> (q: i32)
    requires
        d > 0,
    ensures
        q == trunc_div(n as int, d as int),
        abs_int(q as int) * d <= abs_int(n as int),
        abs_int(q as int) <= abs_int(n as int),
{
    let un: u32 = if n >= 0 {
        n as u32
    } else if n == i32::MIN {
        0x8000_0000
    } else {
        (-n) as u32
    };
    let uq: u32 = un / (d as u32);
    assert(uq * d <= un && uq <= un) by (nonlinear_arith)
        requires
            uq == (un as int) / (d as int),
            d > 0,
            un >= 0,
    ;
    if n >= 0 {
        uq as i32
    } else if uq == 0x8000_0000 {
        i32::MIN
    } else {
        -(uq as i32)
    }
}

impl PapriumAsic {
    /// Makes the ASIC for a ROM that lies in a directory.
    pub fn new(rom_data: Arc<Vec<u8>>, rom_dir: String) -> (r: Self)
        ensures
            r@ == AsicState::fresh(rom_data@),
            r@.valid(),
            r.rom_dir == rom_dir,
            r.bus is None,
    {
        let r = PapriumAsic {
            ram: vec![0u8; RAM_BYTES],
            decoder_ram: vec![0u8; DECODER_BYTES],
            scaler_ram: vec![0u8; SCALER_BYTES],
            music_ram: vec![0u8; MUSIC_BYTES],
            exps_ram: vec![0u8; EXPS_BYTES],
            sfx: [PapriumVoice::default();8],
            music: [PapriumVoice::default();26],
            music_section: 0,
            audio_tick: 0,
            music_segment: 0,
            out_l: 0,
            out_r: 0,
            audio_flags: 0,
            sfx_volume: 0x80,
            music_volume: 0x80,
            decoder_mode: 0,
            decoder_ptr: 0,
            decoder_size: 0,
            draw_src: 0,
            draw_dst: 0,
            obj: vec![0i32; OBJ_SLOTS],
            echo_l: vec![0i32; ECHO_SAMPLES],
            echo_r: vec![0i32; ECHO_SAMPLES],
            echo_ptr: 0,
            echo_pan: 0,
            music_track: 0,
            mp3_ptr: 0,
            music_tick: 0,
            obj_ram: vec![0u8; OBJ_BYTES],
            wave_ram: vec![0u8; WAVE_BYTES],
            music_ptr: 0,
            wave_ptr: 0,
            sfx_ptr: 0,
            tile_ptr: 0,
            sprite_ptr: 0,
            enabled: false,
            tmss: true,
            fast_dma_hack: false,
            skip_boot1: true,
            cmd_count: 0,
            rom_data,
            bus: None,
            rom_dir,
            debug_sprite: false,
            debug_mode: false,
            debug_cheat: false,
        };
        proof {
            let f = AsicState::fresh(rom_data@);
            assert(r@.ram =~= f.ram);
            assert(r@.decoder_ram =~= f.decoder_ram);
            assert(r@.scaler_ram =~= f.scaler_ram);
            assert(r@.music_ram =~= f.music_ram);
            assert(r@.exps_ram =~= f.exps_ram);
            assert(r@.sfx =~= f.sfx);
            assert(r@.music =~= f.music);
            assert(r@.obj =~= f.obj);
            assert(r@.echo_l =~= f.echo_l);
            assert(r@.echo_r =~= f.echo_r);
            assert(r@.obj_ram =~= f.obj_ram);
            assert(r@.wave_ram =~= f.wave_ram);
        }
        r
    }

    /// The byte at an address, where `noise` is what the noise window
    /// gives.
    pub fn byte_given(&self, address: u32, noise: u8) -> (r: u8)
        ensures
            r == self@.byte_with(address as int, noise),
    {
        let addr: usize = address as usize;
        if addr >= DECODER_WINDOW && addr < DECODER_WINDOW_END && self.decoder_size > 0 {
            return self.handle_decoder_read(addr);
        }
        if addr == 0x1800 {
            0
        } else if NOISE_FIRST <= addr && addr <= NOISE_LAST {
            noise
        } else if addr < self.ram.len() {
            self.ram[addr]
        } else {
            OPEN_BYTE
        }
    }

    /// Reads a byte. The noise window gives a byte picked by chance:
    /// of such a read nothing is known.
    pub fn read_byte(&self, address: u32) -> (r: u8)
        ensures
            self@.reads_decoder(address as int) || !self@.reads_noise(address as int) ==> r == self@.byte_with(
                address as int,
                0,
            ),
    {
        let addr: usize = address as usize;
        let in_decoder = addr >= DECODER_WINDOW && addr < DECODER_WINDOW_END && self.decoder_size > 0;
        if !in_decoder && NOISE_FIRST <= addr && addr <= NOISE_LAST {
            self.byte_given(address, random_byte())
        } else {
            self.byte_given(address, 0)
        }
    }

    fn handle_decoder_read(&self, addr: usize) -> (r: u8)
        requires
            addr >= DECODER_WINDOW,
        ensures
            r == byte_or_open(self.decoder_ram@, addr - DECODER_WINDOW),
    {
        let decoder_addr = addr - DECODER_WINDOW;
        if decoder_addr < self.decoder_ram.len() {
            self.decoder_ram[decoder_addr]
        } else {
            OPEN_BYTE
        }
    }

    fn word_of_ram(&self, addr: usize) -> (r: u16)
        ensures
            r == self@.word_at(addr as int),
    {
        let size = self.ram.len();
        if addr == 0x1FE4 {
            0xFFBB
        } else if addr == 0x1FE6 {
            0xBCFF
        } else if addr == 0x1FEA {
            0x7FFF
        } else if addr < usize::MAX && addr + 1 < size {
            make_word(self.ram[addr + 1], self.ram[addr])
        } else {
            OPEN_WORD
        }
    }

    /// Reads a word.
    pub fn read_word(&self, address: u32) -> (r: u16)
        ensures
            r == self@.word_at(address as int),
    {
        self.word_of_ram(address as usize)
    }

    fn read_long(&self, addr: u16) -> (r: u32)
        ensures
            r == self@.long_at(addr as int),
    {
        let high = self.word_of_ram(addr as usize) as u32;
        let low = self.word_of_ram(addr as usize + 2) as u32;
        high * 0x1_0000 + low
    }

    /// Stores a byte in work memory.
    fn store_byte(&mut self, addr: usize, value: u8)
        ensures
            final(self)@ == old(self)@.stored_byte(addr as int, value),
            final(self).rom_dir == old(self).rom_dir,
            final(self).bus == old(self).bus,
    {
        if addr < self.ram.len() {
            self.ram[addr] = value;
            if ARGS_FIRST <= addr && addr <= ARGS_LAST {
                self.cmd_count = if self.cmd_count == i32::MAX {
                    i32::MIN
                } else {
                    self.cmd_count + 1
                };
            }
        }
    }

    /// Stores a word in work memory.
    fn store_word(&mut self, addr: usize, value: u16)
        ensures
            final(self)@ == old(self)@.stored_word(addr as int, value),
            final(self).rom_dir == old(self).rom_dir,
            final(self).bus == old(self).bus,
    {
        let size = self.ram.len();
        if addr < usize::MAX && addr + 1 < size {
            self.ram[addr] = high_byte(value);
            self.ram[addr + 1] = low_byte(value);
            assert(self.ram@ =~= old(self).ram@.update(addr as int, hi_byte(value)).update(
                addr + 1,
                lo_byte(value),
            ));
            if ARGS_FIRST <= addr && addr <= ARGS_LAST {
                self.cmd_count = if self.cmd_count == i32::MAX {
                    i32::MIN
                } else {
                    self.cmd_count + 1
                };
            }
        }
    }
}

/// The status byte that the audio setting shows: bit 7 for the
/// setting's bit 0, bit 6 for its bit 1.
pub open spec fn status_of(param: u8) -> u8 {
    ((if param % 2 == 1 {
        0x80int
    } else {
        0
    }) + (if (param / 2) % 2 == 1 {
        0x40int
    } else {
        0
    })) as u8
}

/// `memory` with `n` bytes from `from` on zero.
pub open spec fn zeroed(memory: Seq<u8>, from: int, n: int) -> Seq<u8> {
    Seq::new(
        memory.len(),
        |i: int|
            if from <= i < from + n {
                0u8
            } else {
                memory[i]
            },
    )
}

/// The words that start the sprite engine's first transfer.
pub open spec fn dma_program() -> Seq<u16> {
    seq![0x8F02u16, 0x9340u16, 0x9580u16, 0x9401u16, 0x9700u16, 0x9605u16, 0x7000u16, 0x0083u16]
}

impl AsicState {
    /// The upper half of work memory shows the ROM's second 32 KiB, as
    /// far as the ROM reaches.
    pub open spec fn after_mapper(self) -> AsicState {
        AsicState { ram: copied(self.ram, 0x8000, self.rom, 0x8000, 0x8000), ..self }
    }

    pub open spec fn after_audio_setting(self, param: u8) -> AsicState {
        (AsicState { audio_flags: param as i32, ..self }).stored_byte(0x1801, param % 2).stored_byte(
            0x1800,
            status_of(param),
        )
    }

    /// A music voice as a new track sets it up: centred, at volume
    /// 0x80, with the program that music memory names for its channel.
    pub open spec fn music_voice(self, ch: int) -> PapriumVoice {
        PapriumVoice { panning: 0x80, volume: 0x80, program: self.music_ram[0x2A + ch] as i32, ..silent_voice() }
    }

    /// The track is the low seven bits of the parameter; it starts from
    /// its beginning with every music voice set up anew.
    pub open spec fn after_music(self, param: u8) -> AsicState {
        AsicState {
            music_track: (param % 128) as i32,
            mp3_ptr: 0,
            music_tick: 0,
            music_section: 0,
            music_segment: 0,
            audio_tick: 0,
            music: Seq::new(MUSIC_VOICES as nat, |ch: int| self.music_voice(ch)),
            ..self
        }
    }

    /// Settings 0 and 8 stop the sheet; the others do nothing.
    pub open spec fn after_music_setting(self, param: u8) -> AsicState {
        if param == 0 || param == 8 {
            AsicState { music_segment: -1i32, ..self }
        } else {
            self
        }
    }

    /// A sprite whose reset word is 1 starts over from its first frame,
    /// and the word is cleared.
    pub open spec fn after_sprite(self, index: u8) -> AsicState {
        if index < OBJ_SLOTS && self.word_at(0xF8A + index * 16) == 1 {
            (AsicState { obj: self.obj.update(index as int, 0), ..self }).stored_word(0xF8A + index * 16, 0)
        } else {
            self
        }
    }

    /// The ASIC after the first `n` words of the transfer program were
    /// stored from 0x1400 on.
    pub open spec fn with_program(self, n: int) -> AsicState
        decreases n,
    {
        if n <= 0 {
            self
        } else {
            self.with_program(n - 1).stored_word(0x1400 + 2 * (n - 1), dma_program()[n - 1])
        }
    }

    pub open spec fn after_sprite_start(self) -> AsicState {
        (AsicState { draw_src: 0x2000, draw_dst: 0x0200, ..self }).stored_word(0x1F16, 1).with_program(8)
    }

    /// The last sprite of the list leaves it: with an empty list the
    /// first entry of both lists is cleared; up to 80 sprites the last
    /// entry's word of the normal list, and up to 14 that of the
    /// extended list too; beyond 80 that of the extended list alone.
    /// Parameter 2 asks for a redraw.
    pub open spec fn after_sprite_stop(self, param: u8) -> AsicState {
        let count = self.word_at(0x1F18) as int;
        let cleared = if count == 0 {
            AsicState { ram: zeroed(zeroed(self.ram, 0xB00, 8), 0x1F20, 8), ..self }
        } else if count <= 80 {
            let first = self.stored_word(0xB02 + (count - 1) * 8, 0);
            if count <= 14 {
                first.stored_word(0x1F22 + (count - 1) * 8, 0)
            } else {
                first
            }
        } else {
            self.stored_word(0x1F22 + (count - 81) * 8, 0)
        };
        if param == 2 {
            cleared.stored_word(0x1F1C, 1)
        } else {
            cleared
        }
    }

    pub open spec fn after_sprite_init(self) -> AsicState {
        AsicState { exps_ram: Seq::new(EXPS_BYTES as nat, |i: int| 0u8), ..self }
    }

    pub open spec fn after_sprite_pause(self) -> AsicState {
        if self.word_at(0x1F18) == 0 {
            AsicState { ram: zeroed(self.ram, 0xB00, 8), ..self }
        } else {
            self
        }
    }

    /// Object memory takes the ROM from the sprite pointer on, as far
    /// as both reach.
    pub open spec fn sprites_decoded(self) -> AsicState {
        if self.sprite_ptr < self.rom.len() {
            AsicState { obj_ram: copied(self.obj_ram, 0, self.rom, self.sprite_ptr as int, OBJ_BYTES as int), ..self }
        } else {
            self
        }
    }

    /// The five data pointers are taken from the argument window and
    /// the sprites decoded; the decoder's window closes.
    pub open spec fn after_boot(self) -> AsicState {
        let pointed = AsicState {
            music_ptr: self.long_at(0x1E10),
            wave_ptr: self.long_at(0x1E18),
            sfx_ptr: self.long_at(0x1E20),
            sprite_ptr: self.long_at(0x1E24),
            tile_ptr: self.long_at(0x1E28),
            ..self
        };
        AsicState { decoder_size: 0, cmd_count: 0, ..pointed.sprites_decoded() }
    }

    pub open spec fn after_music_volume(self, param: u8) -> AsicState {
        AsicState { music_volume: param as i32, ..self }
    }

    pub open spec fn after_sfx_volume(self, param: u8) -> AsicState {
        AsicState { sfx_volume: param as i32, ..self }
    }

    /// The voices that the mask names stop looping and take the decay
    /// of the first argument; a decay of zero ends them at once.
    pub open spec fn after_sfx_off(self, mask: u8) -> AsicState {
        let flags = self.word_at(0x1E10);
        AsicState {
            sfx: Seq::new(
                SFX_VOICES as nat,
                |i: int|
                    if bit_of(mask as u16, i) {
                        PapriumVoice {
                            size: if flags == 0 {
                                0
                            } else {
                                self.sfx[i].size
                            },
                            decay: flags as i32,
                            loop_flag: 0,
                            ..self.sfx[i]
                        }
                    } else {
                        self.sfx[i]
                    },
            ),
            ..self
        }
    }

    /// The voices that the mask names loop, with volume, panning and
    /// decay from the arguments.
    pub open spec fn after_sfx_loop(self, mask: u8) -> AsicState {
        AsicState {
            sfx: Seq::new(
                SFX_VOICES as nat,
                |i: int|
                    if bit_of(mask as u16, i) {
                        PapriumVoice {
                            volume: self.word_at(0x1E10) as i32,
                            panning: self.word_at(0x1E12) as i32,
                            decay: self.word_at(0x1E14) as i32,
                            loop_flag: 1,
                            ..self.sfx[i]
                        }
                    } else {
                        self.sfx[i]
                    },
            ),
            ..self
        }
    }

    /// The decoder's window opens on `size` bytes from `offset`.
    pub open spec fn after_decoder_copy(self) -> AsicState {
        AsicState { decoder_ptr: self.word_at(0x1E12) as i32, decoder_size: self.word_at(0x1E14) as i32, ..self }
    }
}

/// Copies the bytes of `source` from `from` on to `to` and behind it,
/// as far as both reach and no further than `limit` bytes.
pub fn copy_into(memory: &mut Vec<u8>, to: usize, source: &[u8], from: usize, limit: usize)
    requires
        to + limit <= old(memory)@.len(),
    ensures
        final(memory)@ == copied(old(memory)@, to as int, source@, from as int, limit as int),
{
    let size = memory.len();
    let mut i: usize = 0;
    while i < limit && from < source.len() && i < source.len() - from
        invariant
            i <= limit,
            size == memory@.len(),
            to + limit <= memory@.len(),
            memory@.len() == old(memory)@.len(),
            forall|k: int|
                0 <= k < memory@.len() ==> memory@[k] == (if to <= k < to + i && from + (k - to) < source@.len() {
                    source@[from + (k - to)]
                } else {
                    old(memory)@[k]
                }),
        decreases limit - i,
    {
        memory[to + i] = source[from + i];
        i = i + 1;
    }
    assert(memory@ =~= copied(old(memory)@, to as int, source@, from as int, limit as int));
}

/// Sets `n` bytes from `from` on to zero.
pub fn zero_bytes(memory: &mut Vec<u8>, from: usize, n: usize)
    requires
        from + n <= old(memory)@.len(),
    ensures
        final(memory)@ == zeroed(old(memory)@, from as int, n as int),
{
    let size = memory.len();
    let mut i: usize = 0;
    while i < n
        invariant
            i <= n,
            size == memory@.len(),
            from + n <= memory@.len(),
            memory@.len() == old(memory)@.len(),
            forall|k: int|
                0 <= k < memory@.len() ==> memory@[k] == (if from <= k < from + i {
                    0u8
                } else {
                    old(memory)@[k]
                }),
        decreases n - i,
    {
        memory[from + i] = 0;
        i = i + 1;
    }
    assert(memory@ =~= zeroed(old(memory)@, from as int, n as int));
}

impl PapriumAsic {
    /// The chip keeps the directory and the bus that it had.
    pub open spec fn framed(&self, before: &Self) -> bool {
        self.rom_dir == before.rom_dir && self.bus == before.bus
    }

    fn cmd_mapper(&mut self, param: u8)
        requires
            old(self)@.valid(),
        ensures
            final(self)@ == old(self)@.after_mapper(),
            final(self)@.valid(),
            final(self).framed(old(self)),
    {
        copy_into(&mut self.ram, 0x8000, self.rom_data.as_slice(), 0x8000, 0x8000);
    }

    fn cmd_audio_setting(&mut self, param: u8)
        requires
            old(self)@.valid(),
        ensures
            final(self)@ == old(self)@.after_audio_setting(param),
            final(self)@.valid(),
            final(self).framed(old(self)),
    {
        self.audio_flags = param as i32;
        self.store_byte(0x1801, param % 2);
        let mut value: u8 = 0;
        if param % 2 == 1 {
            value = value + 0x80;
        }
        if (param / 2) % 2 == 1 {
            value = value + 0x40;
        }
        self.store_byte(0x1800, value);
    }

    fn cmd_music(&mut self, param: u8)
        requires
            old(self)@.valid(),
        ensures
            final(self)@ == old(self)@.after_music(param),
            final(self)@.valid(),
            final(self).framed(old(self)),
    {
        let track = param % 128;
        self.music_track = track as i32;
        self.mp3_ptr = 0;
        self.music_tick = 0;
        self.load_music_data(track);
        assert(self@.music =~= old(self)@.after_music(param).music);
    }

    fn load_music_data(&mut self, track: u8)
        requires
            old(self)@.valid(),
        ensures
            final(self)@ == (AsicState {
                music_section: 0,
                music_segment: 0,
                audio_tick: 0,
                music: Seq::new(MUSIC_VOICES as nat, |ch: int| old(self)@.music_voice(ch)),
                ..old(self)@
            }),
            final(self).framed(old(self)),
    {
        self.music_section = 0;
        self.music_segment = 0;
        self.audio_tick = 0;
        let mut ch: usize = 0;
        while ch < MUSIC_VOICES
            invariant
                ch <= MUSIC_VOICES,
                self.music_section == 0 && self.music_segment == 0 && self.audio_tick == 0,
                self@ == (AsicState {
                    music_section: 0,
                    music_segment: 0,
                    audio_tick: 0,
                    music: self@.music,
                    ..old(self)@
                }),
                old(self)@.valid(),
                self.framed(old(self)),
                forall|k: int| 0 <= k < ch ==> self.music@[k] == old(self)@.music_voice(k),
            decreases MUSIC_VOICES - ch,
        {
            let mut voice = PapriumVoice::default();
            voice.panning = 0x80;
            voice.volume = 0x80;
            voice.program = self.music_ram[0x2A + ch] as i32;
            self.music[ch] = voice;
            ch = ch + 1;
        }
        assert(self@.music =~= Seq::new(MUSIC_VOICES as nat, |ch: int| old(self)@.music_voice(ch)));
    }

    fn cmd_music_setting(&mut self, param: u8)
        requires
            old(self)@.valid(),
        ensures
            final(self)@ == old(self)@.after_music_setting(param),
            final(self)@.valid(),
            final(self).framed(old(self)),
    {
        if param == 0 || param == 8 {
            self.music_segment = -1;
        }
    }

    fn cmd_sprite(&mut self, index: u8)
        requires
            old(self)@.valid(),
        ensures
            final(self)@ == old(self)@.after_sprite(index),
            final(self)@.valid(),
            final(self).framed(old(self)),
    {
        let slot: usize = index as usize;
        if slot < OBJ_SLOTS {
            let reset = self.word_of_ram(0xF8A + slot * 16);
            if reset == 1 {
                self.obj[slot] = 0;
                assert(self.obj@ =~= old(self).obj@.update(index as int, 0));
                self.store_word(0xF8A + slot * 16, 0);
            }
        }
    }

    fn cmd_sprite_start(&mut self, param: u8)
        requires
            old(self)@.valid(),
        ensures
            final(self)@ == old(self)@.after_sprite_start(),
            final(self)@.valid(),
            final(self).framed(old(self)),
    {
        self.draw_src = 0x2000;
        self.draw_dst = 0x0200;
        self.store_word(0x1F16, 0x0001);
        let dma_cmds: [u16; 8] = [0x8F02, 0x9340, 0x9580, 0x9401, 0x9700, 0x9605, 0x7000, 0x0083];
        assert(dma_cmds@ =~= dma_program());
        let ghost started = self@;
        let mut i: usize = 0;
        while i < 8
            invariant
                i <= 8,
                dma_cmds@ == dma_program(),
                self@ == started.with_program(i as int),
                started.valid(),
                self@.valid(),
                self.framed(old(self)),
            decreases 8 - i,
        {
            self.store_word(0x1400 + i * 2, dma_cmds[i]);
            i = i + 1;
        }
    }

    fn cmd_sprite_stop(&mut self, param: u8)
        requires
            old(self)@.valid(),
        ensures
            final(self)@ == old(self)@.after_sprite_stop(param),
            final(self)@.valid(),
            final(self).framed(old(self)),
    {
        let count: usize = self.word_of_ram(0x1F18) as usize;
        if count == 0 {
            zero_bytes(&mut self.ram, 0xB00, 8);
            zero_bytes(&mut self.ram, 0x1F20, 8);
        } else if count <= 80 {
            self.store_word(0xB02 + (count - 1) * 8, 0);
            if count <= 14 {
                self.store_word(0x1F22 + (count - 1) * 8, 0);
            }
        } else {
            self.store_word(0x1F22 + (count - 81) * 8, 0);
        }
        if param == 2 {
            self.store_word(0x1F1C, 1);
        }
    }

    fn cmd_sprite_init(&mut self, param: u8)
        requires
            old(self)@.valid(),
        ensures
            final(self)@ == old(self)@.after_sprite_init(),
            final(self)@.valid(),
            final(self).framed(old(self)),
    {
        zero_bytes(&mut self.exps_ram, 0, EXPS_BYTES);
        assert(self.exps_ram@ =~= Seq::new(EXPS_BYTES as nat, |i: int| 0u8));
    }

    fn cmd_sprite_pause(&mut self, param: u8)
        requires
            old(self)@.valid(),
        ensures
            final(self)@ == old(self)@.after_sprite_pause(),
            final(self)@.valid(),
            final(self).framed(old(self)),
    {
        let count = self.word_of_ram(0x1F18);
        if count == 0 {
            zero_bytes(&mut self.ram, 0xB00, 8);
        }
    }

    fn decode_sprite_data(&mut self)
        requires
            old(self)@.valid(),
        ensures
            final(self)@ == old(self)@.sprites_decoded(),
            final(self)@.valid(),
            final(self).framed(old(self)),
    {
        if (self.sprite_ptr as usize) < self.rom_data.len() {
            copy_into(&mut self.obj_ram, 0, self.rom_data.as_slice(), self.sprite_ptr as usize, OBJ_BYTES);
        }
    }

    fn cmd_boot(&mut self, param: u8)
        requires
            old(self)@.valid(),
        ensures
            final(self)@ == old(self)@.after_boot(),
            final(self)@.valid(),
            final(self).framed(old(self)),
    {
        self.music_ptr = self.read_long(0x1E10);
        self.wave_ptr = self.read_long(0x1E18);
        self.sfx_ptr = self.read_long(0x1E20);
        self.sprite_ptr = self.read_long(0x1E24);
        self.tile_ptr = self.read_long(0x1E28);
        self.decode_sprite_data();
        self.decoder_size = 0;
        self.cmd_count = 0;
    }

    fn cmd_music_volume(&mut self, param: u8)
        requires
            old(self)@.valid(),
        ensures
            final(self)@ == old(self)@.after_music_volume(param),
            final(self)@.valid(),
            final(self).framed(old(self)),
    {
        self.music_volume = param as i32;
    }

    fn cmd_sfx_volume(&mut self, param: u8)
        requires
            old(self)@.valid(),
        ensures
            final(self)@ == old(self)@.after_sfx_volume(param),
            final(self)@.valid(),
            final(self).framed(old(self)),
    {
        self.sfx_volume = param as i32;
    }

    fn cmd_sfx_off(&mut self, channel_mask: u8)
        requires
            old(self)@.valid(),
        ensures
            final(self)@ == old(self)@.after_sfx_off(channel_mask),
            final(self)@.valid(),
            final(self).framed(old(self)),
    {
        let flags = self.word_of_ram(0x1E10);
        let mut i: usize = 0;
        while i < SFX_VOICES
            invariant
                i <= SFX_VOICES,
                self@ == (AsicState { sfx: self@.sfx, ..old(self)@ }),
                old(self)@.valid(),
                flags == old(self)@.word_at(0x1E10),
                self.framed(old(self)),
                forall|k: int| 0 <= k < i ==> self.sfx@[k] == old(self)@.after_sfx_off(channel_mask).sfx[k],
                forall|k: int| i <= k < SFX_VOICES ==> self.sfx@[k] == old(self)@.sfx[k],
            decreases SFX_VOICES - i,
        {
            if bit_at(channel_mask as u16, i as u32) {
                let mut voice = self.sfx[i];
                if flags == 0 {
                    voice.size = 0;
                }
                voice.decay = flags as i32;
                voice.loop_flag = 0;
                self.sfx[i] = voice;
            }
            i = i + 1;
        }
        assert(self@.sfx =~= old(self)@.after_sfx_off(channel_mask).sfx);
        assert forall|k: int| 0 <= k < SFX_VOICES implies (#[trigger] self@.sfx[k]).playable() by {
            assert(old(self)@.sfx[k].playable());
        }
    }

    fn cmd_sfx_loop(&mut self, channel_mask: u8)
        requires
            old(self)@.valid(),
        ensures
            final(self)@ == old(self)@.after_sfx_loop(channel_mask),
            final(self)@.valid(),
            final(self).framed(old(self)),
    {
        let volume = self.word_of_ram(0x1E10) as i32;
        let panning = self.word_of_ram(0x1E12) as i32;
        let decay = self.word_of_ram(0x1E14) as i32;
        let mut i: usize = 0;
        while i < SFX_VOICES
            invariant
                i <= SFX_VOICES,
                self@ == (AsicState { sfx: self@.sfx, ..old(self)@ }),
                old(self)@.valid(),
                volume == old(self)@.word_at(0x1E10),
                panning == old(self)@.word_at(0x1E12),
                decay == old(self)@.word_at(0x1E14),
                self.framed(old(self)),
                forall|k: int| 0 <= k < i ==> self.sfx@[k] == old(self)@.after_sfx_loop(channel_mask).sfx[k],
                forall|k: int| i <= k < SFX_VOICES ==> self.sfx@[k] == old(self)@.sfx[k],
            decreases SFX_VOICES - i,
        {
            if bit_at(channel_mask as u16, i as u32) {
                let mut voice = self.sfx[i];
                voice.volume = volume;
                voice.panning = panning;
                voice.decay = decay;
                voice.loop_flag = 1;
                self.sfx[i] = voice;
            }
            i = i + 1;
        }
        assert(self@.sfx =~= old(self)@.after_sfx_loop(channel_mask).sfx);
        assert forall|k: int| 0 <= k < SFX_VOICES implies (#[trigger] self@.sfx[k]).playable() by {
            assert(old(self)@.sfx[k].playable());
        }
    }

    fn cmd_decoder_copy(&mut self, param: u8)
        requires
            old(self)@.valid(),
        ensures
            final(self)@ == old(self)@.after_decoder_copy(),
            final(self)@.valid(),
            final(self).framed(old(self)),
    {
        self.decoder_ptr = self.word_of_ram(0x1E12) as i32;
        self.decoder_size = self.word_of_ram(0x1E14) as i32;
    }
}

/// What a run of packed data unpacks to: the memory it was unpacked
/// into, and the position behind the last byte written.
pub struct Unpacked {
    pub memory: Seq<u8>,
    pub end: int,
}

/// `memory` with `n` bytes from `at` on set to `value`.
pub open spec fn filled(memory: Seq<u8>, at: int, n: int, value: u8) -> Seq<u8> {
    Seq::new(
        memory.len(),
        |i: int|
            if at <= i < at + n {
                value
            } else {
                memory[i]
            },
    )
}

pub open spec fn min_int(a: int, b: int) -> int {
    if a <= b {
        a
    } else {
        b
    }
}

/// Packed data from position `sp` of `src`, unpacked into `dst` from
/// position `dp` on; the output began at `base`. Each command byte
/// holds a code in its upper two bits and a length in the lower six:
/// code 0 copies that many bytes that follow it and ends the data with
/// length zero; code 1 repeats the byte that follows; code 2 repeats
/// the byte that lies as far back in the output as the byte that
/// follows says, and no further back than where the output began;
/// code 3 writes zeros. Each run stops where the output ends, and the data ends with
/// the source or the output.
pub open spec fn unpacked(src: Seq<u8>, sp: int, dst: Seq<u8>, base: int, dp: int) -> Unpacked
    decreases src.len() - sp,
{
    if sp < 0 || sp >= src.len() || dp < 0 || dp >= dst.len() {
        Unpacked { memory: dst, end: dp }
    } else {
        let code = src[sp] / 64;
        let run = min_int((src[sp] % 64) as int, dst.len() - dp);
        if code == 0 {
            if src[sp] % 64 == 0 {
                Unpacked { memory: dst, end: dp }
            } else {
                let n = min_int(run, src.len() - (sp + 1));
                unpacked(src, sp + 1 + n, copied(dst, dp, src, sp + 1, run), base, dp + n)
            }
        } else if code == 3 {
            unpacked(src, sp + 1, filled(dst, dp, run, 0), base, dp + run)
        } else if sp + 1 >= src.len() {
            Unpacked { memory: dst, end: dp }
        } else if code == 1 {
            unpacked(src, sp + 2, filled(dst, dp, run, src[sp + 1]), base, dp + run)
        } else {
            let from = if src[sp + 1] <= dp - base {
                dp - src[sp + 1]
            } else {
                base
            };
            let n = if from < dp {
                run
            } else {
                0
            };
            unpacked(src, sp + 2, filled(dst, dp, n, dst[from]), base, dp + n)
        }
    }
}

/// The channel that a new effect takes, found from voice `i` on: the
/// first voice that the mask allows and that is free; with none free,
/// the first allowed voice among those that have played longest.
pub open spec fn picked_channel(sfx: Seq<PapriumVoice>, mask: u16, i: int, longest: int, channel: Option<int>) -> Option<
    int,
>
    decreases SFX_VOICES - i,
{
    if i < 0 || i >= SFX_VOICES {
        channel
    } else if !bit_of(mask, i) {
        picked_channel(sfx, mask, i + 1, longest, channel)
    } else if sfx[i].size == 0 {
        Some(i)
    } else if sfx[i].time > longest {
        picked_channel(sfx, mask, i + 1, sfx[i].time as int, Some(i))
    } else {
        picked_channel(sfx, mask, i + 1, longest, channel)
    }
}

/// The low bit of a value.
pub open spec fn parity(v: i32) -> i32 {
    (v % 2) as i32
}

/// The cell of work memory that a column of the scaler writes to.
pub open spec fn scaler_cell(col: int) -> int {
    (if (col / 4) % 2 == 1 {
        0x600int
    } else {
        0x200int
    }) + (col / 8) * 64 + (col / 2) % 2
}

/// Work memory after the scaler drew the columns from `col` on. A
/// column between `left` and `right` takes the texel at `ptr` of the
/// source's last line: an even column as the upper nibble of its
/// cell, an odd one as the lower; an even column outside clears its
/// cell. After each column drawn the source position advances by the
/// step.
pub open spec fn scaled(
    ram: Seq<u8>,
    scaler_ram: Seq<u8>,
    left: int,
    right: int,
    step: int,
    col: int,
    ptr: int,
    frac: int,
) -> Seq<u8>
    decreases 128 - col,
{
    if col < 0 || col >= 128 {
        ram
    } else {
        let cell = scaler_cell(col);
        let inside = left <= col < right;
        let value = if ptr < 64 {
            scaler_ram[62 * 64 + ptr]
        } else {
            0u8
        };
        let drawn = if inside {
            ram.update(
                cell,
                if col % 2 == 1 {
                    ((ram[cell] / 16) * 16 + value % 16) as u8
                } else {
                    ((value % 16) * 16) as u8
                },
            )
        } else if col % 2 == 0 {
            ram.update(cell, 0u8)
        } else {
            ram
        };
        if inside && ptr < 64 {
            scaled(
                drawn,
                scaler_ram,
                left,
                right,
                step,
                col + 1,
                ptr + (frac + 0x1_0000) / step,
                (frac + 0x1_0000) % step,
            )
        } else {
            scaled(drawn, scaler_ram, left, right, step, col + 1, ptr, frac)
        }
    }
}

impl AsicState {
    /// Where an effect starts in the ROM.
    pub open spec fn effect_start(self, sfx_num: u8) -> i32 {
        if 0 < self.rom.len() <= i32::MAX {
            ((sfx_num * 1000) % (self.rom.len() as int)) as i32
        } else {
            0
        }
    }

    /// An effect starts on the channel picked for it, with volume,
    /// panning and flags from the arguments. One that echoes takes the
    /// next side of the echo line.
    pub open spec fn after_sfx_play(self, sfx_num: u8) -> AsicState {
        let flags = self.word_at(0x1E16);
        let echoes = (flags / 0x4000) % 2 == 1;
        match picked_channel(self.sfx, self.word_at(0x1E10), 0, 0, None) {
            None => self,
            Some(ch) => AsicState {
                sfx: self.sfx.update(
                    ch,
                    PapriumVoice {
                        num: sfx_num as i32,
                        volume: self.word_at(0x1E12) as i32,
                        panning: self.word_at(0x1E14) as i32,
                        flags: flags as i32,
                        ptr: self.effect_start(sfx_num),
                        start: self.effect_start(sfx_num),
                        size: SFX_LENGTH,
                        voice_type: 1,
                        loop_flag: 0,
                        count: 0,
                        time: 0,
                        tick: 0,
                        decay: 0,
                        echo: if echoes {
                            parity(self.echo_pan)
                        } else {
                            self.sfx[ch].echo
                        },
                        ..self.sfx[ch]
                    },
                ),
                echo_pan: if echoes {
                    next_count(self.echo_pan)
                } else {
                    self.echo_pan
                },
                ..self
            },
        }
    }

    /// The decoder's buffer takes what the ROM's data from `src` on
    /// unpacks to, from `offset` on, and the window opens on as many
    /// bytes as were written. A source or an offset outside its memory
    /// changes nothing.
    pub open spec fn after_decode(self, src: u32, offset: int) -> AsicState {
        if src < self.rom.len() && 0 <= offset < self.decoder_ram.len() {
            let u = unpacked(self.rom, src as int, self.decoder_ram, offset, offset);
            AsicState { decoder_ram: u.memory, decoder_size: (u.end - offset) as i32, ..self }
        } else {
            self
        }
    }

    pub open spec fn after_decoder(self, mode: u8) -> AsicState {
        (AsicState { decoder_mode: mode as i32, ..self }).after_decode(
            self.long_at(0x1E12),
            self.word_at(0x1E10) as int,
        )
    }

    /// The data is unpacked into the decoder's buffer and the scaler's
    /// buffer cleared.
    pub open spec fn after_scaler_init(self) -> AsicState {
        AsicState {
            scaler_ram: Seq::new(SCALER_BYTES as nat, |i: int| 0u8),
            ..self.after_decode(self.long_at(0x1E10), 0)
        }
    }

    /// The step of the scaler for a scale.
    pub open spec fn scaler_step(self) -> int {
        if self.word_at(0x1E14) == 0 {
            0x40_0000int
        } else {
            0x40_0000int / (self.word_at(0x1E14) as int)
        }
    }

    pub open spec fn after_scaler(self) -> AsicState {
        AsicState {
            ram: scaled(
                self.ram,
                self.scaler_ram,
                self.word_at(0x1E10) as int,
                self.word_at(0x1E12) as int,
                self.scaler_step(),
                0,
                self.word_at(0x1E16) as int,
                0,
            ),
            ..self
        }
    }
}

/// Sets `n` bytes from `at` on to `value`.
pub fn fill_bytes(memory: &mut Vec<u8>, at: usize, n: usize, value: u8)
    requires
        at + n <= old(memory)@.len(),
    ensures
        final(memory)@ == filled(old(memory)@, at as int, n as int, value),
{
    let size = memory.len();
    let mut i: usize = 0;
    while i < n
        invariant
            i <= n,
            size == memory@.len(),
            at + n <= memory@.len(),
            memory@.len() == old(memory)@.len(),
            forall|k: int|
                0 <= k < memory@.len() ==> memory@[k] == (if at <= k < at + i {
                    value
                } else {
                    old(memory)@[k]
                }),
        decreases n - i,
    {
        memory[at + i] = value;
        i = i + 1;
    }
    assert(memory@ =~= filled(old(memory)@, at as int, n as int, value));
}

impl PapriumAsic {
    fn pick_channel(&self, mask: u16) -> (r: Option<usize>)
        ensures
            match r {
                Some(ch) => picked_channel(self@.sfx, mask, 0, 0, None) == Some(ch as int) && ch < SFX_VOICES,
                None => picked_channel(self@.sfx, mask, 0, 0, None) is None,
            },
    {
        let mut channel: Option<usize> = None;
        let mut longest: i32 = 0;
        let mut i: usize = 0;
        while i < SFX_VOICES
            invariant
                i <= SFX_VOICES,
                channel matches Some(ch) ==> ch < SFX_VOICES,
                picked_channel(self@.sfx, mask, 0, 0, None) == picked_channel(
                    self@.sfx,
                    mask,
                    i as int,
                    longest as int,
                    match channel {
                        Some(ch) => Some(ch as int),
                        None => None,
                    },
                ),
            decreases SFX_VOICES - i,
        {
            if bit_at(mask, i as u32) {
                if self.sfx[i].size == 0 {
                    return Some(i);
                }
                if self.sfx[i].time > longest {
                    longest = self.sfx[i].time;
                    channel = Some(i);
                }
            }
            i = i + 1;
        }
        channel
    }

    fn configure_sfx_data(&self, sfx_num: u8) -> (r: i32)
        ensures
            r == self@.effect_start(sfx_num),
            0 <= r <= 255000,
    {
        let size = self.rom_data.len();
        if 0 < size && size <= 0x7FFF_FFFF {
            let first: usize = (sfx_num as usize) * 1000;
            assert(first % size <= first) by (nonlinear_arith)
                requires
                    size > 0,
            ;
            (first % size) as i32
        } else {
            0
        }
    }

    fn cmd_sfx_play(&mut self, sfx_num: u8)
        requires
            old(self)@.valid(),
        ensures
            final(self)@ == old(self)@.after_sfx_play(sfx_num),
            final(self)@.valid(),
            final(self).framed(old(self)),
    {
        let chan_mask = self.word_of_ram(0x1E10);
        let vol = self.word_of_ram(0x1E12) as i32;
        let pan = self.word_of_ram(0x1E14) as i32;
        let flags = self.word_of_ram(0x1E16);
        match self.pick_channel(chan_mask) {
            Some(ch) => {
                let start = self.configure_sfx_data(sfx_num);
                let mut voice = self.sfx[ch];
                voice.num = sfx_num as i32;
                voice.volume = vol;
                voice.panning = pan;
                voice.flags = flags as i32;
                voice.ptr = start;
                voice.start = start;
                voice.size = SFX_LENGTH;
                voice.voice_type = 1;
                voice.loop_flag = 0;
                voice.count = 0;
                voice.time = 0;
                voice.tick = 0;
                voice.decay = 0;
                if (flags / 0x4000) % 2 == 1 {
                    voice.echo = (i32_bits(self.echo_pan) % 2) as i32;
                    self.echo_pan = if self.echo_pan == i32::MAX {
                        i32::MIN
                    } else {
                        self.echo_pan + 1
                    };
                }
                self.sfx[ch] = voice;
                assert(self@.sfx =~= old(self)@.after_sfx_play(sfx_num).sfx);
                assert forall|k: int| 0 <= k < SFX_VOICES implies (#[trigger] self@.sfx[k]).playable() by {
                    assert(old(self)@.sfx[k].playable());
                }
            },
            None => {},
        }
    }

    fn decode_data(&mut self, src: u32, dst_offset: usize)
        requires
            old(self)@.valid(),
        ensures
            final(self)@ == old(self)@.after_decode(src, dst_offset as int),
            final(self)@.valid(),
            final(self).framed(old(self)),
    {
        let rom_len = self.rom_data.len();
        if (src as usize) < rom_len && dst_offset < DECODER_BYTES {
            let mut sp: usize = src as usize;
            let mut dp: usize = dst_offset;
            let mut done = false;
            while !done && sp < rom_len && dp < DECODER_BYTES
                invariant
                    sp <= rom_len,
                    dp <= DECODER_BYTES,
                    dst_offset <= dp,
                    rom_len == self.rom_data@.len(),
                    self.decoder_ram@.len() == DECODER_BYTES,
                    self@ == (AsicState { decoder_ram: self@.decoder_ram, ..old(self)@ }),
                    self.framed(old(self)),
                    unpacked(self@.rom, sp as int, self@.decoder_ram, dst_offset as int, dp as int) == unpacked(
                        old(self)@.rom,
                        src as int,
                        old(self)@.decoder_ram,
                        dst_offset as int,
                        dst_offset as int,
                    ),
                    done ==> unpacked(self@.rom, sp as int, self@.decoder_ram, dst_offset as int, dp as int) == (Unpacked {
                        memory: self@.decoder_ram,
                        end: dp as int,
                    }),
                decreases (rom_len - sp) + (if done {
                    0int
                } else {
                    1int
                }),
            {
                let cmd = self.rom_data[sp];
                let code = cmd / 64;
                let len: usize = (cmd % 64) as usize;
                let room: usize = DECODER_BYTES - dp;
                let run: usize = if len <= room {
                    len
                } else {
                    room
                };
                if code == 0 {
                    if len == 0 {
                        done = true;
                    } else {
                        let rest: usize = rom_len - (sp + 1);
                        let n: usize = if run <= rest {
                            run
                        } else {
                            rest
                        };
                        copy_into(&mut self.decoder_ram, dp, self.rom_data.as_slice(), sp + 1, run);
                        sp = sp + 1 + n;
                        dp = dp + n;
                    }
                } else if code == 3 {
                    fill_bytes(&mut self.decoder_ram, dp, run, 0);
                    sp = sp + 1;
                    dp = dp + run;
                } else if sp + 1 >= rom_len {
                    done = true;
                } else if code == 1 {
                    let value = self.rom_data[sp + 1];
                    fill_bytes(&mut self.decoder_ram, dp, run, value);
                    sp = sp + 2;
                    dp = dp + run;
                } else {
                    let back: usize = self.rom_data[sp + 1] as usize;
                    let from: usize = if back <= dp - dst_offset {
                        dp - back
                    } else {
                        dst_offset
                    };
                    let n: usize = if from < dp {
                        run
                    } else {
                        0
                    };
                    let value = self.decoder_ram[from];
                    fill_bytes(&mut self.decoder_ram, dp, n, value);
                    sp = sp + 2;
                    dp = dp + n;
                }
            }
            self.decoder_size = (dp - dst_offset) as i32;
        }
    }

    fn cmd_decoder(&mut self, mode: u8)
        requires
            old(self)@.valid(),
        ensures
            final(self)@ == old(self)@.after_decoder(mode),
            final(self)@.valid(),
            final(self).framed(old(self)),
    {
        self.decoder_mode = mode as i32;
        let offset = self.word_of_ram(0x1E10);
        let ptr = self.read_long(0x1E12);
        self.decode_data(ptr, offset as usize);
    }

    fn decode_scaler_data(&mut self, src: u32)
        requires
            old(self)@.valid(),
        ensures
            final(self)@ == (AsicState {
                scaler_ram: Seq::new(SCALER_BYTES as nat, |i: int| 0u8),
                ..old(self)@.after_decode(src, 0)
            }),
            final(self)@.valid(),
            final(self).framed(old(self)),
    {
        self.decode_data(src, 0);
        fill_bytes(&mut self.scaler_ram, 0, SCALER_BYTES, 0);
        assert(self.scaler_ram@ =~= Seq::new(SCALER_BYTES as nat, |i: int| 0u8));
    }

    fn cmd_scaler_init(&mut self, param: u8)
        requires
            old(self)@.valid(),
        ensures
            final(self)@ == old(self)@.after_scaler_init(),
            final(self)@.valid(),
            final(self).framed(old(self)),
    {
        let ptr = self.read_long(0x1E10);
        self.decode_scaler_data(ptr);
    }

    fn cmd_scaler(&mut self, param: u8)
        requires
            old(self)@.valid(),
        ensures
            final(self)@ == old(self)@.after_scaler(),
            final(self)@.valid(),
            final(self).framed(old(self)),
    {
        let left: usize = self.word_of_ram(0x1E10) as usize;
        let right: usize = self.word_of_ram(0x1E12) as usize;
        let scale: u32 = self.word_of_ram(0x1E14) as u32;
        let mut ptr: usize = self.word_of_ram(0x1E16) as usize;
        let step: u32 = if scale == 0 {
            0x40_0000
        } else {
            0x40_0000 / scale
        };
        assert(step >= 64) by (nonlinear_arith)
            requires
                step == (if scale == 0 {
                    0x40_0000int
                } else {
                    0x40_0000int / (scale as int)
                }),
                scale <= 0xFFFF,
        ;
        let mut frac: u32 = 0;
        let mut col: usize = 0;
        while col < 128
            invariant
                col <= 128,
                64 <= step <= 0x40_0000,
                frac < step,
                ptr <= 0x2_0000,
                self.ram@.len() == RAM_BYTES,
                self.scaler_ram@.len() == SCALER_BYTES,
                self@ == (AsicState { ram: self@.ram, ..old(self)@ }),
                self.framed(old(self)),
                scaled(
                    self@.ram,
                    self@.scaler_ram,
                    left as int,
                    right as int,
                    step as int,
                    col as int,
                    ptr as int,
                    frac as int,
                ) == old(self)@.after_scaler().ram,
            decreases 128 - col,
        {
            let base: usize = if (col / 4) % 2 == 1 {
                0x600
            } else {
                0x200
            };
            let cell: usize = base + (col / 8) * 64 + (col / 2) % 2;
            let inside = left <= col && col < right;
            let value: u8 = if ptr < 64 {
                self.scaler_ram[62 * 64 + ptr]
            } else {
                0
            };
            if inside {
                if col % 2 == 1 {
                    self.ram[cell] = (self.ram[cell] / 16) * 16 + value % 16;
                } else {
                    self.ram[cell] = (value % 16) * 16;
                }
            } else if col % 2 == 0 {
                self.ram[cell] = 0;
            }
            if inside && ptr < 64 {
                let total: u32 = frac + 0x1_0000;
                assert(total / step <= 0x1_1000) by (nonlinear_arith)
                    requires
                        step >= 64,
                        total <= 0x41_0000,
                ;
                ptr = ptr + (total / step) as usize;
                frac = total % step;
            }
            col = col + 1;
        }
    }
}

/// A bit of a value's two's-complement pattern is set; `weight` is the
/// bit's value.
pub open spec fn has_bit(v: i32, weight: int) -> bool {
    (bits_of_i32(v) as int / weight) % 2 == 1
}

/// The sum of two values, wrapped into 32 bits.
pub open spec fn wrapped_sum(a: i32, b: i32) -> i32 {
    if a + b > i32::MAX {
        (a + b - 0x1_0000_0000) as i32
    } else if a + b < i32::MIN {
        (a + b + 0x1_0000_0000) as i32
    } else {
        (a + b) as i32
    }
}

/// A sample brought into the 16 bits of the output.
pub open spec fn clipped(v: int) -> int {
    if v < -32768 {
        -32768
    } else if v > 32767 {
        32767
    } else {
        v
    }
}

impl PapriumVoice {
    /// A byte of sample data as a signed level: voices of type 2 hold
    /// four bits a sample, the others eight.
    pub open spec fn depth_adjusted(self, sample: u8) -> int {
        if bits_of_i32(self.voice_type) % 4 == 2 {
            (sample % 16) * 256 - 2048
        } else {
            sample - 128
        }
    }

    /// The level at the voice's volume, a quarter louder where flag
    /// 0x100 is set.
    pub open spec fn processed(self, sample: u8) -> int {
        let level = trunc_div(self.depth_adjusted(sample) * self.volume, 256);
        if has_bit(self.flags, 0x100) {
            trunc_div(level * 125, 100)
        } else {
            level
        }
    }

    /// The panning brought into 0 to 255; 0x80 is the centre.
    pub open spec fn pan(self) -> int {
        if self.panning < 0 {
            0
        } else if self.panning > 0xFF {
            0xFF
        } else {
            self.panning as int
        }
    }

    pub open spec fn left_of(self, level: int) -> int {
        if self.pan() <= 0x80 {
            level
        } else {
            trunc_div(level * (0x100 - self.pan()), 0x80)
        }
    }

    pub open spec fn right_of(self, level: int) -> int {
        if self.pan() >= 0x80 {
            level
        } else {
            trunc_div(level * self.pan(), 0x80)
        }
    }

    /// The voice one sample further: at its end a looping voice starts
    /// over.
    pub open spec fn advanced(self) -> PapriumVoice {
        if self.size == 1 && self.loop_flag != 0 {
            PapriumVoice { ptr: self.start, size: SFX_LENGTH, tick: 0, ..self }
        } else {
            PapriumVoice { ptr: (self.ptr + 1) as i32, size: (self.size - 1) as i32, ..self }
        }
    }

    /// The music voice after a step of the sheet: a note that runs out
    /// while its key is held ends the voice.
    pub open spec fn stepped(self) -> PapriumVoice {
        if self.duration > 0 {
            PapriumVoice {
                duration: (self.duration - 1) as i32,
                size: if self.duration == 1 && self.keyon == 1 {
                    0
                } else {
                    self.size
                },
                ..self
            }
        } else {
            self
        }
    }
}

impl AsicState {
    /// The music stream moves two bytes on and starts over at 1 MiB;
    /// both outputs take its level at the music volume.
    pub open spec fn after_mp3(self) -> AsicState {
        let ptr = if self.mp3_ptr + 2 >= 0x10_0000 {
            0
        } else {
            self.mp3_ptr + 2
        };
        let level = trunc_div((ptr % 256 - 128) * 256 * self.music_volume, 256);
        AsicState { mp3_ptr: ptr as i32, out_l: level as i32, out_r: level as i32, ..self }
    }

    /// The byte of the ROM that an effect voice plays.
    pub open spec fn voice_sample(self, i: int) -> u8 {
        if (self.sfx[i].ptr as int) % 256 < self.rom.len() {
            self.rom[(self.sfx[i].ptr as int) % 256]
        } else {
            0
        }
    }

    /// The ASIC after effect voice `i` played a sample: a voice that
    /// echoes adds a third of its level to its side of the echo line,
    /// and the voice moves on. A voice at its end does nothing.
    pub open spec fn with_voice(self, i: int) -> AsicState {
        let v = self.sfx[i];
        let level = v.processed(self.voice_sample(i));
        if v.size == 0 {
            self
        } else if !has_bit(v.flags, 0x4000) {
            AsicState { sfx: self.sfx.update(i, v.advanced()), ..self }
        } else if bits_of_i32(v.echo) % 2 == 1 {
            AsicState {
                sfx: self.sfx.update(i, v.advanced()),
                echo_l: self.echo_l.update(
                    self.echo_ptr as int,
                    wrapped_sum(self.echo_l[self.echo_ptr as int], trunc_div(v.left_of(level) * 33, 100) as i32),
                ),
                ..self
            }
        } else {
            AsicState {
                sfx: self.sfx.update(i, v.advanced()),
                echo_r: self.echo_r.update(
                    self.echo_ptr as int,
                    wrapped_sum(self.echo_r[self.echo_ptr as int], trunc_div(v.right_of(level) * 33, 100) as i32),
                ),
                ..self
            }
        }
    }

    /// The ASIC after the first `n` effect voices played a sample.
    pub open spec fn with_voices(self, n: int) -> AsicState
        decreases n,
    {
        if n <= 0 {
            self
        } else {
            self.with_voices(n - 1).with_voice(n - 1)
        }
    }

    /// The byte that the sheet shows at an address of its output
    /// window: each music voice has four bytes there, the odd ones 0xE0
    /// while the voice sounds.
    pub open spec fn sheet_byte(self, address: int) -> u8 {
        if (address - 0x1B98) % 2 == 1 && self.music[(address - 0x1B98) / 4].stepped().size > 0 {
            0xE0
        } else {
            0
        }
    }

    /// The ASIC after a step of the sheet: every music voice steps and
    /// shows in the output window whether it sounds; the section
    /// advances, and after 256 sections the segment, which starts over
    /// after 16.
    pub open spec fn after_sheet(self) -> AsicState {
        let wrapped = self.music_section + 1 >= 0x100;
        AsicState {
            music: Seq::new(MUSIC_VOICES as nat, |ch: int| self.music[ch].stepped()),
            ram: Seq::new(
                self.ram.len(),
                |i: int|
                    if 0x1B98 <= i < 0x1B98 + 4 * MUSIC_VOICES {
                        self.sheet_byte(i)
                    } else {
                        self.ram[i]
                    },
            ),
            music_section: if wrapped {
                0
            } else {
                (self.music_section + 1) as i32
            },
            music_segment: if !wrapped {
                self.music_segment
            } else if next_count(self.music_segment) >= 0x10 {
                0
            } else {
                next_count(self.music_segment)
            },
            ..self
        }
    }

    /// One output after the effect volume, the gain of audio flag 8 and
    /// clipping.
    pub open spec fn mastered(self, level: i32) -> i32 {
        let scaled = trunc_div(level * self.sfx_volume, 0x100);
        clipped(
            if has_bit(self.audio_flags, 8) {
                trunc_div(scaled * 4, 2)
            } else {
                scaled
            },
        ) as i32
    }

    pub open spec fn after_effects(self) -> AsicState {
        AsicState { out_l: self.mastered(self.out_l), out_r: self.mastered(self.out_r), ..self }
    }

    /// The echo line moves one sample on, and the sample it arrives at
    /// is cleared.
    pub open spec fn after_echo(self) -> AsicState {
        let ptr = (self.echo_ptr + 1) % (ECHO_SAMPLES as int);
        AsicState { echo_ptr: ptr as i32, echo_l: self.echo_l.update(ptr, 0), echo_r: self.echo_r.update(ptr, 0), ..self }
    }

    /// The ASIC one sample later: music, effects, every fourth sample
    /// the sheet unless it is stopped, then mastering and the echo
    /// line. A chip that is switched off stays as it is.
    pub open spec fn after_audio(self) -> AsicState {
        if !self.enabled {
            self
        } else {
            let ticked = AsicState { audio_tick: next_count(self.audio_tick), ..self };
            let music = if ticked.music_track != 0 {
                ticked.after_mp3()
            } else {
                ticked
            };
            let voiced = music.with_voices(SFX_VOICES as int);
            let sheet = if bits_of_i32(voiced.audio_tick) % 4 == 0 && voiced.music_segment != -1 {
                voiced.after_sheet()
            } else {
                voiced
            };
            sheet.after_effects().after_echo()
        }
    }
}

/// A product lies within the product of the bounds of its factors.
pub proof fn lemma_product_within(a: int, b: int, la: int, lb: int)
    requires
        -la <= a <= la,
        0 <= b <= lb,
    ensures
        -la * lb <= a * b <= la * lb,
{
    assert(-la * lb <= a * b <= la * lb) by (nonlinear_arith)
        requires
            -la <= a <= la,
            0 <= b <= lb,
    ;
}

/// The product of two values over a divisor, rounded toward zero.
pub fn mul_div(value: i32, factor: i32, divisor: i32) -> (r: i32)
    requires
        -0x7FFF_FFFF <= value * factor <= 0x7FFF_FFFF,
        divisor > 0,
    ensures
        r == trunc_div(value * factor, divisor as int),
        abs_int(r as int) * divisor <= abs_int(value * factor),
        abs_int(r as int) <= abs_int(value * factor),
{
    div_toward_zero(value * factor, divisor)
}

/// The sum of two values, wrapped into 32 bits.
pub fn wrapping_sum(a: i32, b: i32) -> (r: i32)
    ensures
        r == wrapped_sum(a, b),
{
    let t: i64 = (a as i64) + (b as i64);
    if t > 0x7FFF_FFFF {
        (t - 0x1_0000_0000) as i32
    } else if t < -0x8000_0000 {
        (t + 0x1_0000_0000) as i32
    } else {
        t as i32
    }
}

/// Whether a bit of a value's pattern is set; `weight` is a power of
/// two.
pub fn bit_set(v: i32, weight: u32) -> (r: bool)
    requires
        weight > 0,
    ensures
        r == has_bit(v, weight as int),
{
    (i32_bits(v) / weight) % 2 == 1
}

impl PapriumAsic {
    fn process_music_mp3(&mut self)
        requires
            old(self)@.valid(),
        ensures
            final(self)@ == old(self)@.after_mp3(),
            final(self)@.valid(),
            final(self).framed(old(self)),
    {
        self.mp3_ptr = self.mp3_ptr + 2;
        if self.mp3_ptr >= 0x10_0000 {
            self.mp3_ptr = 0;
        }
        let sample: i32 = (self.mp3_ptr % 256 - 128) * 256;
        proof {
            lemma_product_within(sample as int, self.music_volume as int, 32768, 0xFF);
        }
        let level = mul_div(sample, self.music_volume, 256);
        self.out_l = level;
        self.out_r = level;
    }
}

impl PapriumVoice {
    fn process_sfx_sample(&self, sample: u8) -> (r: i32)
        requires
            self.playable(),
        ensures
            r == self.processed(sample),
            -0x10_0000 <= r <= 0x10_0000,
    {
        let level: i32 = if i32_bits(self.voice_type) % 4 == 2 {
            ((sample % 16) as i32) * 256 - 2048
        } else {
            (sample as i32) - 128
        };
        proof {
            lemma_product_within(level as int, self.volume as int, 2048, 0xFFFF);
        }
        let scaled = mul_div(level, self.volume, 256);
        if bit_set(self.flags, 0x100) {
            mul_div(scaled, 125, 100)
        } else {
            scaled
        }
    }

    fn apply_panning(&self, level: i32) -> (r: (i32, i32))
        requires
            -0x10_0000 <= level <= 0x10_0000,
        ensures
            r.0 == self.left_of(level as int),
            r.1 == self.right_of(level as int),
            -0x10_0000 <= r.0 <= 0x10_0000,
            -0x10_0000 <= r.1 <= 0x10_0000,
    {
        let pan: i32 = if self.panning < 0 {
            0
        } else if self.panning > 0xFF {
            0xFF
        } else {
            self.panning
        };
        let left = if pan <= 0x80 {
            level
        } else {
            proof {
                lemma_product_within(level as int, (0x100 - pan) as int, 0x10_0000, 0x80);
            }
            mul_div(level, 0x100 - pan, 0x80)
        };
        let right = if pan >= 0x80 {
            level
        } else {
            proof {
                lemma_product_within(level as int, pan as int, 0x10_0000, 0x80);
            }
            mul_div(level, pan, 0x80)
        };
        (left, right)
    }

    fn advance(&mut self)
        requires
            old(self).playable(),
            old(self).size != 0,
        ensures
            *final(self) == old(self).advanced(),
            final(self).playable(),
    {
        self.ptr = self.ptr + 1;
        self.size = self.size - 1;
        if self.size == 0 && self.loop_flag != 0 {
            self.ptr = self.start;
            self.size = SFX_LENGTH;
            self.tick = 0;
        }
    }
}

impl PapriumAsic {
    fn play_voice(&mut self, i: usize)
        requires
            old(self)@.valid(),
            i < SFX_VOICES,
        ensures
            final(self)@ == old(self)@.with_voice(i as int),
            final(self)@.valid(),
            final(self).framed(old(self)),
    {
        let mut voice = self.sfx[i];
        assert(self@.sfx[i as int].playable());
        if voice.size == 0 {
            return;
        }
        let pos: usize = (voice.ptr % 256) as usize;
        let sample: u8 = if pos < self.rom_data.len() {
            self.rom_data[pos]
        } else {
            0
        };
        let level = voice.process_sfx_sample(sample);
        let sides = voice.apply_panning(level);
        if bit_set(voice.flags, 0x4000) {
            self.add_to_echo(sides.0, sides.1, voice.echo);
        }
        voice.advance();
        self.sfx[i] = voice;
        assert(self@.sfx =~= old(self)@.sfx.update(i as int, old(self)@.sfx[i as int].advanced()));
        assert forall|k: int| 0 <= k < SFX_VOICES implies (#[trigger] self@.sfx[k]).playable() by {
            assert(old(self)@.sfx[k].playable());
        }
    }

    fn add_to_echo(&mut self, left: i32, right: i32, echo_channel: i32)
        requires
            old(self)@.valid(),
            -0x10_0000 <= left <= 0x10_0000,
            -0x10_0000 <= right <= 0x10_0000,
        ensures
            final(self)@ == (if bits_of_i32(echo_channel) % 2 == 1 {
                AsicState {
                    echo_l: old(self)@.echo_l.update(
                        old(self)@.echo_ptr as int,
                        wrapped_sum(
                            old(self)@.echo_l[old(self)@.echo_ptr as int],
                            trunc_div(left * 33, 100) as i32,
                        ),
                    ),
                    ..old(self)@
                }
            } else {
                AsicState {
                    echo_r: old(self)@.echo_r.update(
                        old(self)@.echo_ptr as int,
                        wrapped_sum(
                            old(self)@.echo_r[old(self)@.echo_ptr as int],
                            trunc_div(right * 33, 100) as i32,
                        ),
                    ),
                    ..old(self)@
                }
            }),
            final(self).framed(old(self)),
    {
        let at: usize = self.echo_ptr as usize;
        if i32_bits(echo_channel) % 2 == 1 {
            let sum = wrapping_sum(self.echo_l[at], mul_div(left, 33, 100));
            self.echo_l[at] = sum;
        } else {
            let sum = wrapping_sum(self.echo_r[at], mul_div(right, 33, 100));
            self.echo_r[at] = sum;
        }
    }

    fn process_sfx_voices(&mut self)
        requires
            old(self)@.valid(),
        ensures
            final(self)@ == old(self)@.with_voices(SFX_VOICES as int),
            final(self)@.valid(),
            final(self).framed(old(self)),
    {
        let mut i: usize = 0;
        while i < SFX_VOICES
            invariant
                i <= SFX_VOICES,
                self@ == old(self)@.with_voices(i as int),
                self@.valid(),
                self.framed(old(self)),
            decreases SFX_VOICES - i,
        {
            self.play_voice(i);
            i = i + 1;
        }
    }

    fn process_music_sheet(&mut self)
        requires
            old(self)@.valid(),
        ensures
            final(self)@ == old(self)@.after_sheet(),
            final(self)@.valid(),
            final(self).framed(old(self)),
    {
        let mut ch: usize = 0;
        while ch < MUSIC_VOICES
            invariant
                ch <= MUSIC_VOICES,
                old(self)@.valid(),
                self@ == (AsicState { music: self@.music, ram: self@.ram, ..old(self)@ }),
                self@.ram.len() == RAM_BYTES,
                self.framed(old(self)),
                forall|k: int| 0 <= k < ch ==> self.music@[k] == old(self)@.music[k].stepped(),
                forall|k: int| ch <= k < MUSIC_VOICES ==> self.music@[k] == old(self)@.music[k],
                forall|a: int|
                    0 <= a < RAM_BYTES ==> self@.ram[a] == (if 0x1B98 <= a < 0x1B98 + 4 * ch {
                        old(self)@.sheet_byte(a)
                    } else {
                        old(self)@.ram[a]
                    }),
            decreases MUSIC_VOICES - ch,
        {
            let mut voice = self.music[ch];
            if voice.duration > 0 {
                voice.duration = voice.duration - 1;
                if voice.duration == 0 && voice.keyon == 1 {
                    voice.size = 0;
                }
            }
            self.music[ch] = voice;
            let output_addr: usize = 0x1B98 + ch * 4;
            let shown: u16 = if voice.size > 0 {
                0x00E0
            } else {
                0x0000
            };
            self.store_word(output_addr, shown);
            self.store_word(output_addr + 2, shown);
            assert(hi_byte(shown) == 0 && lo_byte(shown) == (if voice.size > 0 {
                0xE0u8
            } else {
                0u8
            }));
            ch = ch + 1;
        }
        self.music_section = self.music_section + 1;
        if self.music_section >= 0x100 {
            self.music_section = 0;
            self.music_segment = if self.music_segment == i32::MAX {
                i32::MIN
            } else {
                self.music_segment + 1
            };
            if self.music_segment >= 0x10 {
                self.music_segment = 0;
            }
        }
        assert(self@.music =~= old(self)@.after_sheet().music);
        assert(self@.ram =~= old(self)@.after_sheet().ram);
    }

    fn master(&self, level: i32) -> (r: i32)
        requires
            self@.valid(),
            -32768 <= level <= 32767,
        ensures
            r == self@.mastered(level),
            -32768 <= r <= 32767,
    {
        proof {
            lemma_product_within(level as int, self.sfx_volume as int, 32768, 0xFF);
        }
        let scaled = mul_div(level, self.sfx_volume, 0x100);
        let gained = if bit_set(self.audio_flags, 8) {
            mul_div(scaled, 4, 2)
        } else {
            scaled
        };
        if gained < -32768 {
            -32768
        } else if gained > 32767 {
            32767
        } else {
            gained
        }
    }

    fn apply_audio_effects(&mut self)
        requires
            old(self)@.valid(),
        ensures
            final(self)@ == old(self)@.after_effects(),
            final(self)@.valid(),
            final(self).framed(old(self)),
    {
        let left = self.master(self.out_l);
        let right = self.master(self.out_r);
        self.out_l = left;
        self.out_r = right;
    }

    fn update_echo(&mut self)
        requires
            old(self)@.valid(),
        ensures
            final(self)@ == old(self)@.after_echo(),
            final(self)@.valid(),
            final(self).framed(old(self)),
    {
        self.echo_ptr = (self.echo_ptr + 1) % (ECHO_SAMPLES as i32);
        let at: usize = self.echo_ptr as usize;
        self.echo_l[at] = 0;
        self.echo_r[at] = 0;
    }

    /// Moves the mixer one sample on.
    #[verifier::rlimit(40)]
    pub fn process_audio(&mut self, cycles: u32)
        requires
            old(self)@.valid(),
        ensures
            final(self)@ == old(self)@.after_audio(),
            final(self)@.valid(),
            final(self).framed(old(self)),
    {
        if !self.enabled {
            return;
        }
        self.audio_tick = if self.audio_tick == i32::MAX {
            i32::MIN
        } else {
            self.audio_tick + 1
        };
        let ghost ticked = self@;
        assert(ticked == (AsicState { audio_tick: next_count(old(self)@.audio_tick), ..old(self)@ }));
        if self.music_track != 0 {
            self.process_music_mp3();
        }
        let ghost music = self@;
        self.process_sfx_voices();
        let ghost voiced = self@;
        assert(voiced == music.with_voices(SFX_VOICES as int));
        if i32_bits(self.audio_tick) % 4 == 0 && self.music_segment != -1 {
            self.process_music_sheet();
        }
        let ghost sheet = self@;
        self.apply_audio_effects();
        self.update_echo();
        assert(self@ == sheet.after_effects().after_echo());
    }
}

/// The four values of a voice that a snapshot keeps.
pub open spec fn voice_bytes(v: PapriumVoice) -> Seq<u8> {
    le32(bits_of_i32(v.volume)) + le32(bits_of_i32(v.panning)) + le32(bits_of_i32(v.size)) + le32(
        bits_of_i32(v.ptr),
    )
}

/// The first `n` voices as a snapshot keeps them.
pub open spec fn voices_bytes(voices: Seq<PapriumVoice>, n: int) -> Seq<u8>
    decreases n,
{
    if n <= 0 {
        Seq::empty()
    } else {
        voices_bytes(voices, n - 1) + voice_bytes(voices[n - 1])
    }
}

/// Bytes of a snapshot that a load reads: the flags, the volumes, the
/// pointers and three memories.
pub const LOADED_BYTES: usize = 41 + 0x1_0000 + 0x1_0000 + 0x8000;

impl AsicState {
    /// The ASIC after a command byte was served.
    pub open spec fn dispatched(self, cmd: u8, param: u8) -> AsicState {
        if cmd == 0x84 {
            self.after_mapper()
        } else if cmd == 0x88 {
            self.after_audio_setting(param)
        } else if cmd == 0x8C {
            self.after_music(param)
        } else if cmd == 0x8D {
            self.after_music_setting(param)
        } else if cmd == 0xAD {
            self.after_sprite(param)
        } else if cmd == 0xAE {
            self.after_sprite_start()
        } else if cmd == 0xAF {
            self.after_sprite_stop(param)
        } else if cmd == 0xB0 {
            self.after_sprite_init()
        } else if cmd == 0xB1 {
            self.after_sprite_pause()
        } else if cmd == 0xC6 {
            self.after_boot()
        } else if cmd == 0xC9 {
            self.after_music_volume(param)
        } else if cmd == 0xCA {
            self.after_sfx_volume(param)
        } else if cmd == 0xD1 {
            self.after_sfx_play(param)
        } else if cmd == 0xD2 {
            self.after_sfx_off(param)
        } else if cmd == 0xD3 {
            self.after_sfx_loop(param)
        } else if cmd == 0xDA {
            self.after_decoder(param)
        } else if cmd == 0xDB {
            self.after_decoder_copy()
        } else if cmd == 0xF4 {
            self.after_scaler_init()
        } else if cmd == 0xF5 {
            self.after_scaler()
        } else {
            self
        }
    }

    /// The command register shows that no command is pending.
    pub open spec fn flag_cleared(self) -> AsicState {
        AsicState { ram: self.ram.update(0x1FEA, 0x7Fu8).update(0x1FEB, 0xFFu8), ..self }
    }

    /// The ASIC after a command word: the command in the high byte is
    /// served with the parameter in the low byte, and the pending flag
    /// cleared. An unknown command only clears the flag.
    pub open spec fn after_command(self, data: u16) -> AsicState {
        (AsicState { cmd_count: 0, ..self }).dispatched(hi_byte(data), lo_byte(data)).flag_cleared()
    }

    /// The ASIC after the host wrote a byte: it is stored, and a byte
    /// of the command register starts the command that the register
    /// then holds.
    pub open spec fn after_write_byte(self, address: int, value: u8) -> AsicState {
        let stored = self.stored_byte(address, value);
        if address == 0x1FEA {
            stored.after_command(word_of(stored.ram[0x1FEB], value))
        } else if address == 0x1FEB {
            stored.after_command(word_of(value, stored.ram[0x1FEA]))
        } else {
            stored
        }
    }

    /// The ASIC after the host wrote a word.
    pub open spec fn after_write_word(self, address: int, value: u16) -> AsicState {
        if address == 0x1FEA {
            self.stored_word(address, value).after_command(value)
        } else {
            self.stored_word(address, value)
        }
    }

    /// The data pointers that a ROM larger than 64 KiB has.
    pub open spec fn pointed(self) -> AsicState {
        if self.rom.len() > 0x1_0000 {
            AsicState {
                music_ptr: 0x1_0000,
                wave_ptr: 0x1_1000,
                sfx_ptr: 0x1_2000,
                sprite_ptr: 0x1_3000,
                tile_ptr: 0x1_4000,
                ..self
            }
        } else {
            self
        }
    }

    /// The ASIC switched on, where `seed` is the side on which the echo
    /// line starts: work memory shows the ROM's first 64 KiB, the
    /// sprites are decoded, the controller setting and the boot patches
    /// are in place, and the sheet is stopped.
    pub open spec fn after_init(self, seed: u8) -> AsicState {
        AsicState { music_segment: -1i32, enabled: true, ..self.rom_loaded().configured(seed).patched() }
    }

    /// Work memory shows the ROM's first 64 KiB, the data pointers are
    /// set and the sprites decoded.
    pub open spec fn rom_loaded(self) -> AsicState {
        (AsicState { ram: copied(self.ram, 0, self.rom, 0, RAM_BYTES as int), ..self }).pointed().sprites_decoded()
    }

    /// The controllers are set to six buttons, transfers to fast, and
    /// the echo line to its first side.
    pub open spec fn configured(self, seed: u8) -> AsicState {
        AsicState { fast_dma_hack: true, echo_pan: seed as i32, ..self.stored_word(0x192, 0x3634) }
    }

    /// The boot patches are in place.
    pub open spec fn patched(self) -> AsicState {
        self.stored_byte(0x1D1D, 0x04).stored_byte(0x1D2C, 0x67).stored_word(0x1560, 0x4EF9).stored_word(
            0x1562,
            0x0001,
        ).stored_word(0x1564, 0x0100)
    }

    /// The ASIC with memories, voices and counters as new; the switches
    /// and the data pointers stay.
    pub open spec fn cleared(self) -> AsicState {
        AsicState {
            music_segment: -1i32,
            draw_src: 0x2000,
            draw_dst: 0x0200,
            music_ptr: self.music_ptr,
            wave_ptr: self.wave_ptr,
            sfx_ptr: self.sfx_ptr,
            tile_ptr: self.tile_ptr,
            sprite_ptr: self.sprite_ptr,
            enabled: self.enabled,
            tmss: self.tmss,
            fast_dma_hack: self.fast_dma_hack,
            debug_sprite: self.debug_sprite,
            debug_mode: self.debug_mode,
            debug_cheat: self.debug_cheat,
            ..AsicState::fresh(self.rom)
        }
    }

    /// The ASIC after a reset: cleared and switched on again.
    pub open spec fn after_reset(self, seed: u8) -> AsicState {
        self.cleared().after_init(seed)
    }

    /// The snapshot: the enabled flag, the TMSS flag as 32 bits, track,
    /// volumes and audio flags, the five data pointers, work memory,
    /// the decoder's buffer and music memory, and four values of each
    /// voice; numbers little-endian.
    pub open spec fn snapshot(self) -> Seq<u8> {
        seq![crate::bits::flag_of(self.enabled)] + le32(crate::bits::flag_of(self.tmss) as u32) + le32(
            bits_of_i32(self.music_track),
        ) + le32(bits_of_i32(self.sfx_volume)) + le32(bits_of_i32(self.music_volume)) + le32(
            bits_of_i32(self.audio_flags),
        ) + le32(self.music_ptr) + le32(self.wave_ptr) + le32(self.sfx_ptr) + le32(self.tile_ptr) + le32(
            self.sprite_ptr,
        ) + self.ram + self.decoder_ram + self.music_ram + voices_bytes(self.sfx, SFX_VOICES as int)
            + voices_bytes(self.music, MUSIC_VOICES as int)
    }

    /// A snapshot that a load takes: long enough, and with volumes of
    /// eight bits.
    pub open spec fn loads(data: Seq<u8>) -> bool {
        &&& data.len() >= LOADED_BYTES
        &&& 0 <= i32_of_bits(u32_at(data, 9)) <= 0xFF
        &&& 0 <= i32_of_bits(u32_at(data, 13)) <= 0xFF
    }

    /// The ASIC after a snapshot was loaded: flags, track, volumes,
    /// pointers and the three memories are the snapshot's; the voices
    /// stay.
    pub open spec fn restored(self, data: Seq<u8>) -> AsicState {
        AsicState {
            enabled: data[0] != 0,
            tmss: u32_at(data, 1) != 0,
            music_track: i32_of_bits(u32_at(data, 5)),
            sfx_volume: i32_of_bits(u32_at(data, 9)),
            music_volume: i32_of_bits(u32_at(data, 13)),
            audio_flags: i32_of_bits(u32_at(data, 17)),
            music_ptr: u32_at(data, 21),
            wave_ptr: u32_at(data, 25),
            sfx_ptr: u32_at(data, 29),
            tile_ptr: u32_at(data, 33),
            sprite_ptr: u32_at(data, 37),
            ram: data.subrange(41, 0x1_0029),
            decoder_ram: data.subrange(0x1_0029, 0x2_0029),
            music_ram: data.subrange(0x2_0029, 0x2_8029),
            ..self
        }
    }

    /// The ASIC `n` samples later.
    pub open spec fn after_samples(self, n: nat) -> AsicState
        decreases n,
    {
        if n == 0 {
            self
        } else {
            self.after_samples((n - 1) as nat).after_audio()
        }
    }
}

fn push_voices(out: &mut Vec<u8>, voices: &[PapriumVoice])
    ensures
        final(out)@ == old(out)@ + voices_bytes(voices@, voices@.len() as int),
{
    let n = voices.len();
    let mut i: usize = 0;
    assert(out@ =~= old(out)@ + voices_bytes(voices@, 0));
    while i < n
        invariant
            i <= n,
            n == voices@.len(),
            out@ == old(out)@ + voices_bytes(voices@, i as int),
        decreases n - i,
    {
        let ghost before = out@;
        push_i32(out, voices[i].volume);
        push_i32(out, voices[i].panning);
        push_i32(out, voices[i].size);
        push_i32(out, voices[i].ptr);
        assert(out@ =~= before + voice_bytes(voices@[i as int]));
        assert(out@ =~= old(out)@ + voices_bytes(voices@, i + 1));
        i = i + 1;
    }
}

/// The bytes of a slice from `from` to `to` as a new vector.
fn bytes_between(data: &[u8], from: usize, to: usize) -> (r: Vec<u8>)
    requires
        from <= to <= data@.len(),
    ensures
        r@ == data@.subrange(from as int, to as int),
{
    let mut r: Vec<u8> = Vec::new();
    let mut i: usize = from;
    while i < to
        invariant
            from <= i <= to,
            to <= data@.len(),
            r@ == data@.subrange(from as int, i as int),
        decreases to - i,
    {
        r.push(data[i]);
        assert(r@ =~= data@.subrange(from as int, i + 1));
        i = i + 1;
    }
    r
}

impl PapriumAsic {
    fn clear_command_flag(&mut self)
        requires
            old(self)@.valid(),
        ensures
            final(self)@ == old(self)@.flag_cleared(),
            final(self)@.valid(),
            final(self).framed(old(self)),
    {
        let current = self.word_of_ram(COMMAND_REGISTER);
        self.ram[COMMAND_REGISTER] = high_byte(current);
        self.ram[COMMAND_REGISTER + 1] = low_byte(current);
        assert(self.ram@ =~= old(self).ram@.update(0x1FEA, 0x7Fu8).update(0x1FEB, 0xFFu8));
    }

    /// Serves the command `cmd` with its parameter.
    #[verifier::rlimit(40)]
    fn dispatch(&mut self, cmd: u8, param: u8)
        requires
            old(self)@.valid(),
        ensures
            final(self)@ == old(self)@.dispatched(cmd, param),
            final(self)@.valid(),
            final(self).framed(old(self)),
    {
        if cmd == 0x84 {
            self.cmd_mapper(param);
        } else if cmd == 0x88 {
            self.cmd_audio_setting(param);
        } else if cmd == 0x8C {
            self.cmd_music(param);
        } else if cmd == 0x8D {
            self.cmd_music_setting(param);
        } else if cmd == 0xAD {
            self.cmd_sprite(param);
        } else if cmd == 0xAE {
            self.cmd_sprite_start(param);
        } else if cmd == 0xAF {
            self.cmd_sprite_stop(param);
        } else if cmd == 0xB0 {
            self.cmd_sprite_init(param);
        } else if cmd == 0xB1 {
            self.cmd_sprite_pause(param);
        } else if cmd == 0xC6 {
            self.cmd_boot(param);
        } else {
            self.dispatch_sound(cmd, param);
        }
    }

    /// The special music commands change nothing that the ASIC holds.
    fn cmd_music_special(&mut self, param: u8)
        ensures
            *final(self) == *old(self),
    {
    }

    /// The save memory is the cartridge's, not the ASIC's: a read of a
    /// bank changes nothing here.
    fn cmd_sram_read(&mut self, bank: u8)
        ensures
            *final(self) == *old(self),
    {
    }

    /// A write of a bank of save memory changes nothing here.
    fn cmd_sram_write(&mut self, bank: u8)
        ensures
            *final(self) == *old(self),
    {
    }

    /// Serves the commands of the mixer, the decoder and the scaler.
    #[verifier::rlimit(40)]
    fn dispatch_sound(&mut self, cmd: u8, param: u8)
        requires
            old(self)@.valid(),
            cmd != 0x84 && cmd != 0x88 && cmd != 0x8C && cmd != 0x8D && cmd != 0xAD && cmd != 0xAE && cmd != 0xAF
                && cmd != 0xB0 && cmd != 0xB1 && cmd != 0xC6,
        ensures
            final(self)@ == old(self)@.dispatched(cmd, param),
            final(self)@.valid(),
            final(self).framed(old(self)),
    {
        if cmd == 0xC9 {
            self.cmd_music_volume(param);
        } else if cmd == 0xCA {
            self.cmd_sfx_volume(param);
        } else if cmd == 0xD1 {
            self.cmd_sfx_play(param);
        } else if cmd == 0xD2 {
            self.cmd_sfx_off(param);
        } else if cmd == 0xD3 {
            self.cmd_sfx_loop(param);
        } else if cmd == 0xD6 {
            self.cmd_music_special(param);
        } else if cmd == 0xDA {
            self.cmd_decoder(param);
        } else if cmd == 0xDB {
            self.cmd_decoder_copy(param);
        } else if cmd == 0xDF {
            self.cmd_sram_read(param);
        } else if cmd == 0xE0 {
            self.cmd_sram_write(param);
        } else if cmd == 0xF4 {
            self.cmd_scaler_init(param);
        } else if cmd == 0xF5 {
            self.cmd_scaler(param);
        }
    }

    /// Serves a command word. A store that a command makes starts no
    /// further command.
    #[verifier::rlimit(40)]
    pub fn process_command(&mut self, data: u16)
        requires
            old(self)@.valid(),
        ensures
            final(self)@ == old(self)@.after_command(data),
            final(self)@.valid(),
            final(self).framed(old(self)),
    {
        let cmd = high_byte(data);
        let param = low_byte(data);
        self.cmd_count = 0;
        self.dispatch(cmd, param);
        self.clear_command_flag();
    }

    /// Writes a byte.
    pub fn write_byte(&mut self, address: u32, value: u8)
        requires
            old(self)@.valid(),
        ensures
            final(self)@ == old(self)@.after_write_byte(address as int, value),
            final(self)@.valid(),
            final(self).framed(old(self)),
    {
        let addr: usize = address as usize;
        self.store_byte(addr, value);
        if addr == COMMAND_REGISTER || addr == COMMAND_REGISTER + 1 {
            self.handle_command_write(addr, value);
        }
    }

    fn handle_command_write(&mut self, addr: usize, value: u8)
        requires
            old(self)@.valid(),
            addr == COMMAND_REGISTER || addr == COMMAND_REGISTER + 1,
        ensures
            final(self)@ == (if addr == COMMAND_REGISTER {
                old(self)@.after_command(word_of(old(self)@.ram[0x1FEB], value))
            } else {
                old(self)@.after_command(word_of(value, old(self)@.ram[0x1FEA]))
            }),
            final(self)@.valid(),
            final(self).framed(old(self)),
    {
        if addr == COMMAND_REGISTER {
            let word = make_word(self.ram[COMMAND_REGISTER + 1], value);
            self.process_command(word);
        } else {
            let word = make_word(value, self.ram[COMMAND_REGISTER]);
            self.process_command(word);
        }
    }

    /// Writes a word.
    pub fn write_word(&mut self, address: u32, value: u16)
        requires
            old(self)@.valid(),
        ensures
            final(self)@ == old(self)@.after_write_word(address as int, value),
            final(self)@.valid(),
            final(self).framed(old(self)),
    {
        let addr: usize = address as usize;
        self.store_word(addr, value);
        if addr == COMMAND_REGISTER {
            self.process_command(value);
        }
    }

    fn find_rom_pointers(&mut self)
        requires
            old(self)@.valid(),
        ensures
            final(self)@ == old(self)@.pointed(),
            final(self)@.valid(),
            final(self).framed(old(self)),
    {
        if self.rom_data.len() > 0x1_0000 {
            self.music_ptr = 0x1_0000;
            self.wave_ptr = 0x1_1000;
            self.sfx_ptr = 0x1_2000;
            self.sprite_ptr = 0x1_3000;
            self.tile_ptr = 0x1_4000;
        }
    }

    fn load_rom(&mut self)
        requires
            old(self)@.valid(),
        ensures
            final(self)@ == old(self)@.rom_loaded(),
            final(self)@.valid(),
            final(self).framed(old(self)),
    {
        copy_into(&mut self.ram, 0, self.rom_data.as_slice(), 0, RAM_BYTES);
        self.find_rom_pointers();
        self.decode_sprite_data();
    }

    fn configure_hardware(&mut self, seed: u8)
        requires
            old(self)@.valid(),
        ensures
            final(self)@ == old(self)@.configured(seed),
            final(self)@.valid(),
            final(self).framed(old(self)),
    {
        self.store_word(0x192, 0x3634);
        self.fast_dma_hack = true;
        self.echo_pan = seed as i32;
    }

    fn apply_patches(&mut self)
        requires
            old(self)@.valid(),
        ensures
            final(self)@ == old(self)@.patched(),
            final(self)@.valid(),
            final(self).framed(old(self)),
    {
        self.store_byte(0x1D1D, 0x04);
        self.store_byte(0x1D2C, 0x67);
        self.store_word(0x1560, 0x4EF9);
        self.store_word(0x1562, 0x0001);
        self.store_word(0x1564, 0x0100);
    }

    /// Switches the ASIC on, with the side on which the echo line
    /// starts given.
    #[verifier::rlimit(40)]
    pub fn init_with(&mut self, seed: u8)
        requires
            old(self)@.valid(),
        ensures
            final(self)@ == old(self)@.after_init(seed),
            final(self)@.valid(),
            final(self).framed(old(self)),
    {
        self.load_rom();
        self.configure_hardware(seed);
        self.apply_patches();
        self.music_segment = -1;
        self.enabled = true;
    }

    /// Switches the ASIC on. Chance picks the side on which the echo
    /// line starts.
    pub fn init(&mut self) -> (r: Result<(), CartridgeError>)
        requires
            old(self)@.valid(),
        ensures
            r is Ok,
            0 <= final(self)@.echo_pan <= 0xFF,
            final(self)@ == old(self)@.after_init(final(self)@.echo_pan as u8),
            final(self)@.valid(),
            final(self).framed(old(self)),
    {
        let seed = random_byte();
        self.init_with(seed);
        Ok(())
    }

    /// Clears memories, voices and counters.
    fn clear(&mut self)
        requires
            old(self)@.valid(),
        ensures
            final(self)@ == old(self)@.cleared(),
            final(self)@.valid(),
            final(self).framed(old(self)),
    {
        fill_bytes(&mut self.ram, 0, RAM_BYTES, 0);
        fill_bytes(&mut self.decoder_ram, 0, DECODER_BYTES, 0);
        fill_bytes(&mut self.scaler_ram, 0, SCALER_BYTES, 0);
        fill_bytes(&mut self.music_ram, 0, MUSIC_BYTES, 0);
        fill_bytes(&mut self.exps_ram, 0, EXPS_BYTES, 0);
        fill_bytes(&mut self.obj_ram, 0, OBJ_BYTES, 0);
        fill_bytes(&mut self.wave_ram, 0, WAVE_BYTES, 0);
        self.echo_l = vec![0i32; ECHO_SAMPLES];
        self.echo_r = vec![0i32; ECHO_SAMPLES];
        self.obj = vec![0i32; OBJ_SLOTS];
        self.sfx = [PapriumVoice::default();8];
        self.music = [PapriumVoice::default();26];
        self.music_section = 0;
        self.audio_tick = 0;
        self.music_segment = -1;
        self.out_l = 0;
        self.out_r = 0;
        self.audio_flags = 0;
        self.sfx_volume = 0x80;
        self.music_volume = 0x80;
        self.decoder_mode = 0;
        self.decoder_ptr = 0;
        self.decoder_size = 0;
        self.draw_src = 0x2000;
        self.draw_dst = 0x0200;
        self.echo_ptr = 0;
        self.echo_pan = 0;
        self.music_track = 0;
        self.mp3_ptr = 0;
        self.music_tick = 0;
        self.skip_boot1 = true;
        self.cmd_count = 0;
        proof {
            let c = old(self)@.cleared();
            assert(self@.ram =~= c.ram);
            assert(self@.decoder_ram =~= c.decoder_ram);
            assert(self@.scaler_ram =~= c.scaler_ram);
            assert(self@.music_ram =~= c.music_ram);
            assert(self@.exps_ram =~= c.exps_ram);
            assert(self@.obj_ram =~= c.obj_ram);
            assert(self@.wave_ram =~= c.wave_ram);
            assert(self@.echo_l =~= c.echo_l);
            assert(self@.echo_r =~= c.echo_r);
            assert(self@.obj =~= c.obj);
            assert(self@.sfx =~= c.sfx);
            assert(self@.music =~= c.music);
        }
    }

    /// Resets the ASIC: everything is cleared and the chip switched on
    /// again. Chance picks the side on which the echo line starts.
    #[verifier::rlimit(40)]
    pub fn reset(&mut self)
        requires
            old(self)@.valid(),
        ensures
            0 <= final(self)@.echo_pan <= 0xFF,
            final(self)@ == old(self)@.after_reset(final(self)@.echo_pan as u8),
            final(self)@.valid(),
            final(self).framed(old(self)),
    {
        self.clear();
        let seed = random_byte();
        self.init_with(seed);
    }

    /// Writes the snapshot.
    pub fn save_state(&self) -> (state: Vec<u8>)
        ensures
            state@ == self@.snapshot(),
    {
        let mut state: Vec<u8> = Vec::new();
        state.push(if self.enabled { 1 } else { 0 });
        push_u32(&mut state, if self.tmss { 1 } else { 0 });
        push_i32(&mut state, self.music_track);
        push_i32(&mut state, self.sfx_volume);
        push_i32(&mut state, self.music_volume);
        push_i32(&mut state, self.audio_flags);
        push_u32(&mut state, self.music_ptr);
        push_u32(&mut state, self.wave_ptr);
        push_u32(&mut state, self.sfx_ptr);
        push_u32(&mut state, self.tile_ptr);
        push_u32(&mut state, self.sprite_ptr);
        push_bytes(&mut state, self.ram.as_slice());
        push_bytes(&mut state, self.decoder_ram.as_slice());
        push_bytes(&mut state, self.music_ram.as_slice());
        push_voices(&mut state, self.sfx.as_slice());
        push_voices(&mut state, self.music.as_slice());
        assert(state@ =~= self@.snapshot());
        state
    }

    /// Loads a snapshot. One that is too short, or whose volumes do not
    /// fit eight bits, is refused and changes nothing.
    pub fn load_state(&mut self, data: &[u8]) -> (ok: bool)
        requires
            old(self)@.valid(),
        ensures
            ok == AsicState::loads(data@),
            ok ==> final(self)@ == old(self)@.restored(data@),
            !ok ==> final(self)@ == old(self)@,
            final(self)@.valid(),
            final(self).framed(old(self)),
    {
        if data.len() < LOADED_BYTES {
            return false;
        }
        let sfx_volume = read_i32(data, 9);
        let music_volume = read_i32(data, 13);
        if sfx_volume < 0 || sfx_volume > 0xFF || music_volume < 0 || music_volume > 0xFF {
            return false;
        }
        self.enabled = data[0] != 0;
        self.tmss = read_u32(data, 1) != 0;
        self.music_track = read_i32(data, 5);
        self.sfx_volume = sfx_volume;
        self.music_volume = music_volume;
        self.audio_flags = read_i32(data, 17);
        self.music_ptr = read_u32(data, 21);
        self.wave_ptr = read_u32(data, 25);
        self.sfx_ptr = read_u32(data, 29);
        self.tile_ptr = read_u32(data, 33);
        self.sprite_ptr = read_u32(data, 37);
        self.ram = bytes_between(data, 41, 0x1_0029);
        self.decoder_ram = bytes_between(data, 0x1_0029, 0x2_0029);
        self.music_ram = bytes_between(data, 0x2_0029, 0x2_8029);
        true
    }

    pub fn chip_type(&self) -> (r: ChipType)
        ensures
            r == ChipType::Paprium,
    {
        ChipType::Paprium
    }

    /// Moves the mixer one sample on.
    pub fn update(&mut self, cycles: u32)
        requires
            old(self)@.valid(),
        ensures
            final(self)@ == old(self)@.after_audio(),
            final(self)@.valid(),
            final(self).framed(old(self)),
    {
        self.process_audio(cycles);
    }

    /// Moves the mixer `samples` samples on and gives the two outputs
    /// as the sound system takes them.
    pub fn update_audio(&mut self, samples: u32) -> (r: (i16, i16))
        requires
            old(self)@.valid(),
        ensures
            final(self)@ == old(self)@.after_samples(samples as nat),
            final(self)@.valid(),
            final(self).framed(old(self)),
            r.0 == final(self)@.out_l,
            r.1 == final(self)@.out_r,
    {
        let mut i: u32 = 0;
        while i < samples
            invariant
                i <= samples,
                self@ == old(self)@.after_samples(i as nat),
                self@.valid(),
                self.framed(old(self)),
            decreases samples - i,
        {
            self.process_audio(1);
            i = i + 1;
        }
        (self.out_l as i16, self.out_r as i16)
    }

    /// Connects the host bus.
    pub fn connect_bus(&mut self, bus: Arc<MemoryBus>)
        ensures
            final(self)@ == old(self)@,
            final(self).bus == Some(bus),
            final(self).rom_dir == old(self).rom_dir,
    {
        self.bus = Some(bus);
    }

    pub fn set_debug_mode(&mut self, enable: bool)
        ensures
            final(self)@ == (AsicState {
                debug_mode: enable,
                debug_sprite: enable,
                debug_cheat: enable,
                ..old(self)@
            }),
            final(self).framed(old(self)),
    {
        self.debug_mode = enable;
        self.debug_sprite = enable;
        self.debug_cheat = enable;
    }
}

/// How the chip is set up.
pub struct PapriumConfig {
    pub debug_mode: bool,
    pub enable_cheats: bool,
    pub fast_dma_hack: bool,
    /// Directory of the music tracks.
    pub mp3_dir: String,
    pub rom_path: String,
}

impl PapriumConfig {
    /// Fast transfers on, debugging and cheats off, the tracks under
    /// `./paprium`.
    pub fn default() -> (r: Self)
        ensures
            !r.debug_mode,
            !r.enable_cheats,
            r.fast_dma_hack,
            r.mp3_dir@ == "./paprium"@,
            r.rom_path@ == ""@,
    {
        PapriumConfig {
            debug_mode: false,
            enable_cheats: false,
            fast_dma_hack: true,
            mp3_dir: "./paprium".to_owned(),
            rom_path: "".to_owned(),
        }
    }
}

/// What the header of an MP3 frame says.
#[derive(Clone, Copy, Debug)]
pub struct Mp3FrameInfo {
    pub frame_bytes: i32,
    pub frame_offset: i32,
    pub channels: i32,
    pub hz: i32,
    pub layer: i32,
    pub bitrate_kbps: i32,
}

/// A decoded track.
pub struct Mp3FileInfo {
    pub buffer: Vec<i16>,
    pub samples: usize,
    pub channels: i32,
    pub hz: i32,
}

/// The formats of packed data.
#[derive(Clone, Copy, Debug, PartialEq, Eq, Structural)]
pub enum DecoderType {
    LzRle,
    Lzo,
    Unknown,
}

/// The mixer as a part of its own.
pub struct PapriumAudio {}

impl PapriumAudio {
    pub fn new() -> (r: Self)
        ensures
            r == (PapriumAudio {  }),
    {
        PapriumAudio {  }
    }
}

/// The decoder as a part of its own.
pub struct PapriumDecoder {}

impl PapriumDecoder {
    pub fn new() -> (r: Self)
        ensures
            r == (PapriumDecoder {  }),
    {
        PapriumDecoder {  }
    }
}

/// The sprite engine as a part of its own.
pub struct PapriumSpriteEngine {}

impl PapriumSpriteEngine {
    pub fn new() -> (r: Self)
        ensures
            r == (PapriumSpriteEngine {  }),
    {
        PapriumSpriteEngine {  }
    }
}

/// The scaler as a part of its own.
pub struct PapriumScaler {}

impl PapriumScaler {
    pub fn new() -> (r: Self)
        ensures
            r == (PapriumScaler {  }),
    {
        PapriumScaler {  }
    }
}

/// An address of the bus that the ASIC answers with memory: its work
/// memory in the first 64 KiB, the decoder's buffer at 0xC00000.
pub open spec fn in_paprium_area(addr: u32) -> bool {
    addr <= 0x00_FFFF || 0xC0_0000 <= addr <= 0xC0_FFFF
}

/// An address of the bus that the ASIC answers as a port: the bank
/// registers, which it keeps off, and the TMSS register.
pub open spec fn in_paprium_io(addr: u32) -> bool {
    0xA1_30F0 <= addr <= 0xA1_30FF || addr == 0xA1_4101
}

pub fn is_paprium_area(addr: u32) -> (r: bool)
    ensures
        r == in_paprium_area(addr),
{
    addr <= 0x00_FFFF || (0xC0_0000 <= addr && addr <= 0xC0_FFFF)
}

pub fn is_paprium_io(addr: u32) -> (r: bool)
    ensures
        r == in_paprium_io(addr),
{
    (0xA1_30F0 <= addr && addr <= 0xA1_30FF) || addr == 0xA1_4101
}

/// The file that holds a music track, for the tracks that exist.
pub open spec fn track_name(track: i32) -> Option<Seq<char>> {
    if track == 0x01 {
        Some("02 90's Acid Dub Character Select.mp3"@)
    } else if track == 0x02 {
        Some("08 90's Dance.mp3"@)
    } else if track == 0x03 {
        Some("42 1988 Commercial.mp3"@)
    } else if track == 0x04 {
        Some("05 Asian Chill.mp3"@)
    } else if track == 0x05 {
        Some("31 Bad Dudes vs Paprium.mp3"@)
    } else if track == 0x06 {
        Some("43 Blade FM.mp3"@)
    } else if track == 0x07 {
        Some("03 Bone Crusher.mp3"@)
    } else if track == 0x0B {
        Some("26 Club Shuffle.mp3"@)
    } else if track == 0x0C {
        Some("23 Continue.mp3"@)
    } else if track == 0x0E {
        Some("07 Cool Groove.mp3"@)
    } else if track == 0x0F {
        Some("36 Cyberpunk Ninja.mp3"@)
    } else if track == 0x10 {
        Some("35 Cyberpunk Funk.mp3"@)
    } else if track == 0x11 {
        Some("30 Cyber Interlude.mp3"@)
    } else if track == 0x12 {
        Some("21 Cyborg Invasion.mp3"@)
    } else if track == 0x13 {
        Some("44 Dark Alley.mp3"@)
    } else if track == 0x14 {
        Some("29 Dark & Power Mad.mp3"@)
    } else if track == 0x15 {
        Some("24 Intro.mp3"@)
    } else if track == 0x16 {
        Some("27 Dark Rock.mp3"@)
    } else if track == 0x17 {
        Some("04 Drumbass Boss.mp3"@)
    } else if track == 0x18 {
        Some("45 Dubstep Groove.mp3"@)
    } else if track == 0x19 {
        Some("15 Electro Acid Funk.mp3"@)
    } else if track == 0x1B {
        Some("28 Evolve.mp3"@)
    } else if track == 0x1C {
        Some("33 Funk Enhanced Mix.mp3"@)
    } else if track == 0x1D {
        Some("41 Game Over.mp3"@)
    } else if track == 0x1E {
        Some("46 Gothic.mp3"@)
    } else if track == 0x20 {
        Some("13 Hard Rock.mp3"@)
    } else if track == 0x21 {
        Some("22 Hardcore BP1.mp3"@)
    } else if track == 0x22 {
        Some("11 Hardcore BP2.mp3"@)
    } else if track == 0x23 {
        Some("38 Hardcore BP3.mp3"@)
    } else if track == 0x24 {
        Some("40 Score.mp3"@)
    } else if track == 0x25 {
        Some("47 House.mp3"@)
    } else if track == 0x26 {
        Some("17 Indie Shuffle.mp3"@)
    } else if track == 0x27 {
        Some("25 Indie Break Beat.mp3"@)
    } else if track == 0x28 {
        Some("16 Jazzy Shuffle.mp3"@)
    } else if track == 0x2A {
        Some("19 Neo Metal.mp3"@)
    } else if track == 0x2B {
        Some("14 Neon Rider.mp3"@)
    } else if track == 0x2E {
        Some("09 Retro Beat.mp3"@)
    } else if track == 0x2F {
        Some("20 Sadness.mp3"@)
    } else if track == 0x31 {
        Some("18 Slow Asian Beat.mp3"@)
    } else if track == 0x32 {
        Some("48 Slow Mood.mp3"@)
    } else if track == 0x33 {
        Some("49 Smooth Coords.mp3"@)
    } else if track == 0x34 {
        Some("10 Spiral.mp3"@)
    } else if track == 0x35 {
        Some("12 Stage Clear.mp3"@)
    } else if track == 0x36 {
        Some("32 Summer Breeze.mp3"@)
    } else if track == 0x37 {
        Some("06 Techno Beats.mp3"@)
    } else if track == 0x38 {
        Some("50 Tension.mp3"@)
    } else if track == 0x39 {
        Some("01 Theme of Paprium.mp3"@)
    } else if track == 0x3A {
        Some("39 Ending.mp3"@)
    } else if track == 0x3B {
        Some("34 Transe.mp3"@)
    } else if track == 0x3C {
        Some("37 Urban.mp3"@)
    } else if track == 0x3D {
        Some("51 Water.mp3"@)
    } else if track == 0x3E {
        Some("52 Waterfront Beat.mp3"@)
    } else {
        None
    }
}

/// The file that holds a music track.
pub fn track_file(track: i32) -> (r: Option<&'static str>)
    ensures
        match r {
            Some(name) => track_name(track) == Some(name@),
            None => track_name(track) is None,
        },
{
    if track == 0x01 {
        Some("02 90's Acid Dub Character Select.mp3")
    } else if track == 0x02 {
        Some("08 90's Dance.mp3")
    } else if track == 0x03 {
        Some("42 1988 Commercial.mp3")
    } else if track == 0x04 {
        Some("05 Asian Chill.mp3")
    } else if track == 0x05 {
        Some("31 Bad Dudes vs Paprium.mp3")
    } else if track == 0x06 {
        Some("43 Blade FM.mp3")
    } else if track == 0x07 {
        Some("03 Bone Crusher.mp3")
    } else if track == 0x0B {
        Some("26 Club Shuffle.mp3")
    } else if track == 0x0C {
        Some("23 Continue.mp3")
    } else if track == 0x0E {
        Some("07 Cool Groove.mp3")
    } else if track == 0x0F {
        Some("36 Cyberpunk Ninja.mp3")
    } else if track == 0x10 {
        Some("35 Cyberpunk Funk.mp3")
    } else if track == 0x11 {
        Some("30 Cyber Interlude.mp3")
    } else if track == 0x12 {
        Some("21 Cyborg Invasion.mp3")
    } else if track == 0x13 {
        Some("44 Dark Alley.mp3")
    } else if track == 0x14 {
        Some("29 Dark & Power Mad.mp3")
    } else if track == 0x15 {
        Some("24 Intro.mp3")
    } else if track == 0x16 {
        Some("27 Dark Rock.mp3")
    } else if track == 0x17 {
        Some("04 Drumbass Boss.mp3")
    } else if track == 0x18 {
        Some("45 Dubstep Groove.mp3")
    } else if track == 0x19 {
        Some("15 Electro Acid Funk.mp3")
    } else if track == 0x1B {
        Some("28 Evolve.mp3")
    } else if track == 0x1C {
        Some("33 Funk Enhanced Mix.mp3")
    } else if track == 0x1D {
        Some("41 Game Over.mp3")
    } else if track == 0x1E {
        Some("46 Gothic.mp3")
    } else if track == 0x20 {
        Some("13 Hard Rock.mp3")
    } else if track == 0x21 {
        Some("22 Hardcore BP1.mp3")
    } else if track == 0x22 {
        Some("11 Hardcore BP2.mp3")
    } else if track == 0x23 {
        Some("38 Hardcore BP3.mp3")
    } else if track == 0x24 {
        Some("40 Score.mp3")
    } else if track == 0x25 {
        Some("47 House.mp3")
    } else if track == 0x26 {
        Some("17 Indie Shuffle.mp3")
    } else if track == 0x27 {
        Some("25 Indie Break Beat.mp3")
    } else if track == 0x28 {
        Some("16 Jazzy Shuffle.mp3")
    } else if track == 0x2A {
        Some("19 Neo Metal.mp3")
    } else if track == 0x2B {
        Some("14 Neon Rider.mp3")
    } else if track == 0x2E {
        Some("09 Retro Beat.mp3")
    } else if track == 0x2F {
        Some("20 Sadness.mp3")
    } else if track == 0x31 {
        Some("18 Slow Asian Beat.mp3")
    } else if track == 0x32 {
        Some("48 Slow Mood.mp3")
    } else if track == 0x33 {
        Some("49 Smooth Coords.mp3")
    } else if track == 0x34 {
        Some("10 Spiral.mp3")
    } else if track == 0x35 {
        Some("12 Stage Clear.mp3")
    } else if track == 0x36 {
        Some("32 Summer Breeze.mp3")
    } else if track == 0x37 {
        Some("06 Techno Beats.mp3")
    } else if track == 0x38 {
        Some("50 Tension.mp3")
    } else if track == 0x39 {
        Some("01 Theme of Paprium.mp3")
    } else if track == 0x3A {
        Some("39 Ending.mp3")
    } else if track == 0x3B {
        Some("34 Transe.mp3")
    } else if track == 0x3C {
        Some("37 Urban.mp3")
    } else if track == 0x3D {
        Some("51 Water.mp3")
    } else if track == 0x3E {
        Some("52 Waterfront Beat.mp3")
    } else {
        None
    }
}

/// The number of the boss whose theme a track is, which stays loaded
/// beside the current track.
pub open spec fn boss_of(track: i32) -> Option<u8> {
    if track == PAPRIUM_BOSS1 {
        Some(1u8)
    } else if track == PAPRIUM_BOSS2 {
        Some(2u8)
    } else if track == PAPRIUM_BOSS3 {
        Some(3u8)
    } else if track == PAPRIUM_BOSS4 {
        Some(4u8)
    } else {
        None
    }
}

pub fn boss_number(track: i32) -> (r: Option<u8>)
    ensures
        r == boss_of(track),
{
    if track == PAPRIUM_BOSS1 as i32 {
        Some(1)
    } else if track == PAPRIUM_BOSS2 as i32 {
        Some(2)
    } else if track == PAPRIUM_BOSS3 as i32 {
        Some(3)
    } else if track == PAPRIUM_BOSS4 as i32 {
        Some(4)
    } else {
        None
    }
}

/// The sample of a decoded track at a position, on both sides; silence
/// behind its end and without a track.
pub open spec fn sample_pair(info: Option<Mp3FileInfo>, ptr: int) -> (i32, i32) {
    match info {
        Some(track) => if 0 <= ptr < track.buffer@.len() {
            (track.buffer@[ptr] as i32, track.buffer@[ptr] as i32)
        } else {
            (0i32, 0i32)
        },
        None => (0i32, 0i32),
    }
}

pub fn track_sample(info: &Option<Mp3FileInfo>, ptr: usize) -> (r: (i32, i32))
    ensures
        r == sample_pair(*info, ptr as int),
{
    match info {
        Some(track) => {
            if ptr < track.buffer.len() {
                let sample = track.buffer[ptr] as i32;
                (sample, sample)
            } else {
                (0, 0)
            }
        },
        None => (0, 0),
    }
}

/// What a request for a track does to the player: nothing where the
/// track already plays and no reload is asked; else the track becomes
/// the current one, or none where no file holds it.
pub open spec fn track_after_request(current: i32, track: i32, reload: bool) -> i32 {
    if current == track && !reload {
        current
    } else if track_name(track) is Some {
        track
    } else {
        0
    }
}

/// A request for a track asks for work: the track does not play
/// already, or it is to be loaded again.
pub open spec fn request_pending(current: i32, track: i32, reload: bool) -> bool {
    !(current == track && !reload)
}

pub fn is_request_pending(current: i32, track: i32, reload: bool) -> (r: bool)
    ensures
        r == request_pending(current, track, reload),
{
    !(current == track && !reload)
}

/// The track that plays after a request, and the file to load for it,
/// if one is to be loaded.
pub fn request_track(current: i32, track: i32, reload: bool) -> (r: (i32, Option<&'static str>))
    ensures
        r.0 == track_after_request(current, track, reload),
        current == track && !reload ==> r.1 is None,
        !(current == track && !reload) ==> (match r.1 {
            Some(name) => track_name(track) == Some(name@),
            None => track_name(track) is None,
        }),
{
    if current == track && !reload {
        return (current, None);
    }
    match track_file(track) {
        Some(name) => (track, Some(name)),
        None => (0, None),
    }
}

impl AsicState {
    /// The byte that the ASIC gives the bus at an address, where
    /// `noise` is what the noise window gives: its memory in its area,
    /// the TMSS flag from the TMSS register, the open bus elsewhere.
    pub open spec fn bus_byte(self, addr: u32, noise: u8) -> u8 {
        if in_paprium_area(addr) {
            self.byte_with((addr % 0x1_0000) as int, noise)
        } else if addr == 0xA1_4101 {
            crate::bits::flag_of(self.tmss)
        } else {
            OPEN_BYTE
        }
    }

    /// The ASIC after the bus wrote a byte: into its memory in its
    /// area, the TMSS flag through the TMSS register, nothing
    /// elsewhere.
    pub open spec fn after_bus_write(self, addr: u32, value: u8) -> AsicState {
        if in_paprium_area(addr) {
            self.after_write_byte((addr % 0x1_0000) as int, value)
        } else if addr == 0xA1_4101 {
            AsicState { tmss: value != 0, ..self }
        } else {
            self
        }
    }
}

impl PapriumAsic {
    /// Answers a read of the bus. Of a read from the noise window
    /// nothing is known.
    pub fn handle_read(&self, addr: u32) -> (r: u8)
        ensures
            !in_paprium_area(addr) || self@.reads_decoder((addr % 0x1_0000) as int) || !self@.reads_noise(
                (addr % 0x1_0000) as int,
            ) ==> r == self@.bus_byte(addr, 0),
    {
        if is_paprium_area(addr) {
            return self.read_byte(addr % 0x1_0000);
        }
        if is_paprium_io(addr) {
            return self.handle_io_read(addr);
        }
        OPEN_BYTE
    }

    /// Takes a write of the bus.
    pub fn handle_write(&mut self, addr: u32, value: u8)
        requires
            old(self)@.valid(),
        ensures
            final(self)@ == old(self)@.after_bus_write(addr, value),
            final(self)@.valid(),
            final(self).framed(old(self)),
    {
        if is_paprium_area(addr) {
            self.write_byte(addr % 0x1_0000, value);
            return;
        }
        if is_paprium_io(addr) {
            self.handle_io_write(addr, value);
        }
    }

    fn handle_io_read(&self, addr: u32) -> (r: u8)
        ensures
            r == (if addr == 0xA1_4101 {
                crate::bits::flag_of(self@.tmss)
            } else {
                OPEN_BYTE
            }),
    {
        if addr == 0xA1_4101 {
            if self.tmss {
                1
            } else {
                0
            }
        } else {
            OPEN_BYTE
        }
    }

    fn handle_io_write(&mut self, addr: u32, value: u8)
        ensures
            final(self)@ == (if addr == 0xA1_4101 {
                AsicState { tmss: value != 0, ..old(self)@ }
            } else {
                old(self)@
            }),
            final(self).framed(old(self)),
    {
        if addr == 0xA1_4101 {
            self.tmss = value != 0;
        }
    }
}

impl AsicState {
    /// The music stream after the player moved it on by a sample pair:
    /// it starts over at the end of the track, where the track's length
    /// is known, and past 1 MiB.
    pub open spec fn stream_advanced(self, samples: Option<usize>) -> AsicState {
        let next = self.mp3_ptr + 2;
        AsicState {
            mp3_ptr: if (samples matches Some(n) && next >= n) || next > 0x10_0001 {
                0
            } else {
                next as i32
            },
            ..self
        }
    }
}

impl PapriumVoice {
    /// Whether the mixer can play the voice.
    pub fn is_playable(&self) -> (r: bool)
        ensures
            r == self.playable(),
    {
        0 <= self.volume && self.volume <= 0xFFFF && 0 <= self.tick && self.tick < 0x1_0000 && 0 <= self.size && 0
            <= self.ptr && 0 <= self.start && self.start <= 0x1000_0000 && (self.ptr as i64) + (self.size as i64)
            <= (self.start as i64) + (SFX_LENGTH as i64)
    }
}

impl PapriumAsic {
    /// Whether the chip is in a state that its functions take: its
    /// fields are open, so a host that wrote them may ask.
    pub fn is_valid(&self) -> (r: bool)
        ensures
            r == self@.valid(),
    {
        if !(self.ram.len() == RAM_BYTES && self.decoder_ram.len() == DECODER_BYTES && self.scaler_ram.len()
            == SCALER_BYTES && self.music_ram.len() == MUSIC_BYTES && self.exps_ram.len() == EXPS_BYTES
            && self.obj.len() == OBJ_SLOTS && self.echo_l.len() == ECHO_SAMPLES && self.echo_r.len()
            == ECHO_SAMPLES && self.obj_ram.len() == OBJ_BYTES && self.wave_ram.len() == WAVE_BYTES) {
            return false;
        }
        if !(0 <= self.echo_ptr && (self.echo_ptr as usize) < ECHO_SAMPLES && 0 <= self.sfx_volume
            && self.sfx_volume <= 0xFF && 0 <= self.music_volume && self.music_volume <= 0xFF && -32768
            <= self.out_l && self.out_l <= 32767 && -32768 <= self.out_r && self.out_r <= 32767 && 0
            <= self.mp3_ptr && self.mp3_ptr <= 0x10_0001 && 0 <= self.music_tick && self.music_tick < 0x1_0000
            && 0 <= self.music_section && self.music_section < 0x100) {
            return false;
        }
        let mut i: usize = 0;
        while i < SFX_VOICES
            invariant
                i <= SFX_VOICES,
                forall|k: int| 0 <= k < i ==> (#[trigger] self@.sfx[k]).playable(),
            decreases SFX_VOICES - i,
        {
            if !self.sfx[i].is_playable() {
                assert(!self@.sfx[i as int].playable());
                return false;
            }
            i = i + 1;
        }
        true
    }

    /// Moves the music stream on by a sample pair, for a track of
    /// `samples` samples where that is known.
    pub fn advance_stream(&mut self, samples: Option<usize>)
        requires
            old(self)@.valid(),
        ensures
            final(self)@ == old(self)@.stream_advanced(samples),
            final(self)@.valid(),
            final(self).framed(old(self)),
    {
        let next: i32 = self.mp3_ptr + 2;
        let at_end = match samples {
            Some(n) => (next as usize) >= n,
            None => false,
        };
        if at_end || next > 0x10_0001 {
            self.mp3_ptr = 0;
        } else {
            self.mp3_ptr = next;
        }
    }
}

impl AsicState {
    /// The level of a sample of the music track at the music volume.
    pub open spec fn music_level(self, sample: i32) -> i16 {
        trunc_div(sample * self.music_volume, 256) as i16
    }

    /// The ASIC with a track chosen: the stream starts from its
    /// beginning.
    pub open spec fn with_track(self, track: i32) -> AsicState {
        AsicState { music_track: track, mp3_ptr: 0, music_tick: 0, ..self }
    }
}

impl PapriumAsic {
    /// The two levels of the music track at a position of a decoded
    /// track, at the music volume.
    pub fn music_levels(&self, info: &Option<Mp3FileInfo>, ptr: usize) -> (r: (i16, i16))
        requires
            self@.valid(),
        ensures
            r.0 == self@.music_level(sample_pair(*info, ptr as int).0),
            r.1 == self@.music_level(sample_pair(*info, ptr as int).1),
    {
        let pair = track_sample(info, ptr);
        proof {
            lemma_product_within(pair.0 as int, self.music_volume as int, 32768, 0xFF);
            lemma_product_within(pair.1 as int, self.music_volume as int, 32768, 0xFF);
        }
        let left = mul_div(pair.0, self.music_volume, 256);
        let right = mul_div(pair.1, self.music_volume, 256);
        (left as i16, right as i16)
    }

    /// Chooses the music track; its stream starts from the beginning.
    pub fn select_track(&mut self, track: i32)
        ensures
            final(self)@ == old(self)@.with_track(track),
            final(self).framed(old(self)),
            old(self)@.valid() ==> final(self)@.valid(),
    {
        self.music_track = track;
        self.mp3_ptr = 0;
        self.music_tick = 0;
    }
}

} // verus!
