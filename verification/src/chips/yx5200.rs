//! The YX5200 MP3 player module: the serial receiver, the command set and
//! the playback switches. Opening and decoding the audio files is the
//! host's work: the chip asks for it and is told how it went.

use vstd::prelude::*;
use crate::bits::{flag_byte, flag_of, le16, make_word, push_bytes, push_u16, read_u16, u16_at, word_of};

verus! {

/// Bytes of a message on the serial line.
pub const RX_BUFFER_SIZE: usize = 10;

/// Highest track number.
pub const MAX_TRACK_INDEX: u16 = 2999;

/// Highest volume.
pub const MAX_VOLUME: u8 = 30;

/// Bytes of a snapshot.
pub const SNAPSHOT_BYTES: usize = 30;

/// What the chip asks of the host after a message.
#[derive(Clone, Copy, Debug, PartialEq, Eq, Structural)]
pub enum TrackRequest {
    /// Nothing to do.
    Idle,
    /// Close the open track.
    Unload,
    /// Close the open track, then open track `index`.
    Load { index: u16, playback_loop: bool },
}

/// What the host does after it read samples of the open track.
#[derive(Clone, Copy, Debug, PartialEq, Eq, Structural)]
pub enum TrackEnd {
    /// All samples asked for were read: play them.
    Complete,
    /// The track ran out and loops: go back to its start and read on.
    Rewind,
    /// The track ran out, or decoding failed: close it and fill up
    /// with silence.
    Stop,
}

/// What follows a read that gave `available` of `wanted` samples: a
/// track that ran out starts over if it loops and decoding did not
/// fail, and ends otherwise.
pub open spec fn after_read(playback_loop: bool, failed: bool, available: int, wanted: int) -> TrackEnd {
    if available >= wanted {
        TrackEnd::Complete
    } else if playback_loop && !failed {
        TrackEnd::Rewind
    } else {
        TrackEnd::Stop
    }
}

#[derive(Clone, Copy, Debug, PartialEq, Eq, Structural)]
pub enum StateError {
    /// The snapshot is too short or holds a receiver state that cannot
    /// occur.
    Invalid,
}

/// The chip as contracts see it.
pub struct PlayerState {
    /// Bit of the byte under reception: 0 waits for a start bit, 1 to 8
    /// take data bits, 9 waits for the stop bit.
    pub rx_cycle: u8,
    pub rx_counter: u8,
    pub rx_buffer: Seq<u8>,
    pub playback_enabled: bool,
    pub playback_loop: bool,
    pub playback_volume: u8,
    pub audio_enabled: bool,
    /// The open track, or 0.
    pub track_index: u16,
    pub audio: Seq<i16>,
    pub rom_path: Seq<char>,
}

/// The character of a decimal digit.
pub open spec fn digit_char(d: int) -> char {
    if d == 0 {
        '0'
    } else if d == 1 {
        '1'
    } else if d == 2 {
        '2'
    } else if d == 3 {
        '3'
    } else if d == 4 {
        '4'
    } else if d == 5 {
        '5'
    } else if d == 6 {
        '6'
    } else if d == 7 {
        '7'
    } else if d == 8 {
        '8'
    } else {
        '9'
    }
}

/// A number in decimal, without leading zeros.
pub open spec fn decimal(n: nat) -> Seq<char>
    decreases n,
{
    if n < 10 {
        seq![digit_char(n as int)]
    } else {
        decimal(n / 10) + seq![digit_char((n % 10) as int)]
    }
}

/// A number in decimal, with zeros in front up to `width` digits.
pub open spec fn padded(n: nat, width: nat) -> Seq<char> {
    if decimal(n).len() >= width {
        decimal(n)
    } else {
        Seq::new((width - decimal(n).len()) as nat, |i: int| '0') + decimal(n)
    }
}

/// The name of the file of a track, its number written with at least
/// `width` digits.
pub open spec fn track_file_name(index: u16, width: nat) -> Seq<char> {
    padded(index as nat, width) + ".mp3"@
}

/// The step from one level to another as sixteen bits carry it.
pub open spec fn wrapped_delta(to: i16, from: i16) -> i16 {
    if to - from > i16::MAX {
        (to - from - 0x1_0000) as i16
    } else if to - from < i16::MIN {
        (to - from + 0x1_0000) as i16
    } else {
        (to - from) as i16
    }
}

/// The signed value that has the same 16 bits as `v`.
pub open spec fn i16_of_bits(v: u16) -> i16 {
    if v < 0x8000 {
        v as i16
    } else {
        (v - 0x1_0000) as i16
    }
}

/// The unsigned value that has the same 16 bits as `v`.
pub open spec fn bits_of_i16(v: i16) -> u16 {
    if v >= 0 {
        v as u16
    } else {
        (v + 0x1_0000) as u16
    }
}

/// A 64-bit value as eight little-endian bytes.
pub open spec fn le64(v: u64) -> Seq<u8> {
    Seq::new(8, |k: int| ((v as int / crate::bits::pow2(8 * k)) % 256) as u8)
}

impl PlayerState {
    pub open spec fn valid(self) -> bool {
        &&& self.rx_cycle <= 9
        &&& self.rx_counter < RX_BUFFER_SIZE
        &&& self.rx_buffer.len() == RX_BUFFER_SIZE
        &&& self.audio.len() == 2
    }

    pub open spec fn initial(rom_path: Seq<char>) -> PlayerState {
        PlayerState {
            rx_cycle: 0,
            rx_counter: 0,
            rx_buffer: Seq::new(RX_BUFFER_SIZE as nat, |i: int| 0u8),
            playback_enabled: false,
            playback_loop: false,
            playback_volume: MAX_VOLUME,
            audio_enabled: true,
            track_index: 0,
            audio: Seq::new(2, |i: int| 0i16),
            rom_path,
        }
    }

    /// The chip with no track open.
    pub open spec fn unloaded(self) -> PlayerState {
        if self.track_index != 0 {
            PlayerState { playback_enabled: false, track_index: 0, ..self }
        } else {
            self
        }
    }

    /// The sixteen-bit argument of the message in the buffer.
    pub open spec fn argument(self) -> u16 {
        word_of(self.rx_buffer[6], self.rx_buffer[5])
    }

    /// The chip after the message in its buffer was carried out, and
    /// what the host is asked to do. Track changes close the open track
    /// first.
    pub open spec fn commanded(self) -> (PlayerState, TrackRequest) {
        let code = self.rx_buffer[3];
        let arg = self.argument();
        if code == 0x01 {
            if self.track_index > 0 && self.track_index <= MAX_TRACK_INDEX {
                (
                    self.unloaded(),
                    TrackRequest::Load { index: (self.track_index + 1) as u16, playback_loop: self.playback_loop },
                )
            } else {
                (self, TrackRequest::Idle)
            }
        } else if code == 0x02 {
            if self.track_index > 1 {
                (
                    self.unloaded(),
                    TrackRequest::Load { index: (self.track_index - 1) as u16, playback_loop: self.playback_loop },
                )
            } else {
                (self, TrackRequest::Idle)
            }
        } else if code == 0x03 || code == 0x08 {
            if arg > 0 && arg <= MAX_TRACK_INDEX {
                (self.unloaded(), TrackRequest::Load { index: arg, playback_loop: code == 0x03 })
            } else {
                (self, TrackRequest::Idle)
            }
        } else if code == 0x04 {
            if self.playback_volume < MAX_VOLUME {
                (PlayerState { playback_volume: (self.playback_volume + 1) as u8, ..self }, TrackRequest::Idle)
            } else {
                (self, TrackRequest::Idle)
            }
        } else if code == 0x05 {
            if self.playback_volume > 0 {
                (PlayerState { playback_volume: (self.playback_volume - 1) as u8, ..self }, TrackRequest::Idle)
            } else {
                (self, TrackRequest::Idle)
            }
        } else if code == 0x06 {
            if arg <= MAX_VOLUME {
                (PlayerState { playback_volume: arg as u8, ..self }, TrackRequest::Idle)
            } else {
                (self, TrackRequest::Idle)
            }
        } else if code == 0x0C {
            (PlayerState::initial(self.rom_path), TrackRequest::Unload)
        } else if code == 0x0D {
            if self.track_index != 0 {
                (PlayerState { playback_enabled: true, ..self }, TrackRequest::Idle)
            } else {
                (self, TrackRequest::Idle)
            }
        } else if code == 0x0E {
            (PlayerState { playback_enabled: false, ..self }, TrackRequest::Idle)
        } else if code == 0x16 {
            (self.unloaded(), TrackRequest::Unload)
        } else if code == 0x19 {
            if self.playback_enabled {
                (PlayerState { playback_loop: self.rx_buffer[6] % 2 == 0, ..self }, TrackRequest::Idle)
            } else {
                (self, TrackRequest::Idle)
            }
        } else if code == 0x1A {
            (PlayerState { audio_enabled: self.rx_buffer[6] % 2 == 0, ..self }, TrackRequest::Idle)
        } else {
            (self, TrackRequest::Idle)
        }
    }

    /// The chip after one bit time on the serial line with the line at
    /// `high`, and what the host is asked to do. A byte is a start bit
    /// (low), eight data bits from the lowest up, and a stop bit (high);
    /// the tenth byte completes a message.
    pub open spec fn received(self, high: bool) -> (PlayerState, TrackRequest) {
        let c = self.rx_counter as int;
        if self.rx_cycle == 0 {
            if !high {
                (PlayerState { rx_buffer: self.rx_buffer.update(c, 0u8), rx_cycle: 1, ..self }, TrackRequest::Idle)
            } else {
                (self, TrackRequest::Idle)
            }
        } else if self.rx_cycle < 9 {
            (
                PlayerState {
                    rx_buffer: self.rx_buffer.update(
                        c,
                        self.rx_buffer[c] | ((if high { 1u8 } else { 0u8 }) << ((self.rx_cycle - 1) as u8)),
                    ),
                    rx_cycle: (self.rx_cycle + 1) as u8,
                    ..self
                },
                TrackRequest::Idle,
            )
        } else if !high {
            (PlayerState { rx_cycle: 0, ..self }, TrackRequest::Idle)
        } else if c + 1 < RX_BUFFER_SIZE {
            (PlayerState { rx_cycle: 0, rx_counter: (c + 1) as u8, ..self }, TrackRequest::Idle)
        } else {
            let done = (PlayerState { rx_cycle: 0, rx_counter: 0, ..self }).commanded();
            (PlayerState { rx_cycle: 0, rx_counter: 0, ..done.0 }, done.1)
        }
    }

    /// The snapshot of the chip, with the decoder's position behind it.
    pub open spec fn snapshot(self, cur_sample: u64) -> Seq<u8> {
        seq![self.rx_cycle, self.rx_counter] + self.rx_buffer + seq![
            flag_of(self.playback_enabled),
            flag_of(self.playback_loop),
            self.playback_volume,
            flag_of(self.audio_enabled),
        ] + le16(self.track_index) + le16(bits_of_i16(self.audio[0])) + le16(bits_of_i16(self.audio[1])) + le64(
            cur_sample,
        )
    }

    /// A decoded sample at the chip's volume: scaled by the volume over
    /// the highest volume, rounded toward zero, and kept within sixteen
    /// bits.
    pub open spec fn scaled(self, sample: i16) -> i16 {
        crate::svp::fixed::clamp_int(
            crate::svp::fixed::trunc_div(sample * self.playback_volume, MAX_VOLUME as int),
            i16::MIN as int,
            i16::MAX as int,
        ) as i16
    }

    /// The levels of the two outputs for frame `k` of decoded samples:
    /// the first and the last channel of the frame.
    pub open spec fn frame_levels(self, buffer: Seq<i16>, channels: int, k: int) -> (i16, i16) {
        (self.scaled(buffer[k * channels]), self.scaled(buffer[k * channels + channels - 1]))
    }

    /// The snapshot holds a receiver state that can occur.
    pub open spec fn loadable(data: Seq<u8>) -> bool {
        data.len() >= SNAPSHOT_BYTES && data[0] <= 9 && data[1] < RX_BUFFER_SIZE
    }

    /// The chip after a snapshot was loaded. No track is open until the
    /// host has opened the one that the snapshot names.
    pub open spec fn restored(self, data: Seq<u8>) -> PlayerState {
        PlayerState {
            rx_cycle: data[0],
            rx_counter: data[1],
            rx_buffer: data.subrange(2, 12),
            playback_enabled: data[12] != 0,
            playback_loop: data[13] != 0,
            playback_volume: data[14],
            audio_enabled: data[15] != 0,
            track_index: 0,
            audio: seq![i16_of_bits(u16_at(data, 18)), i16_of_bits(u16_at(data, 20))],
            rom_path: self.rom_path,
        }
    }
}

pub struct Yx5200 {
    rx_cycle: u8,
    rx_counter: u8,
    rx_buffer: [u8; 10],
    playback_enabled: bool,
    playback_loop: bool,
    playback_volume: u8,
    audio_enabled: bool,
    track_index: u16,
    audio: [i16; 2],
    rom_path: String,
}

impl View for Yx5200 {
    type V = PlayerState;

    closed spec fn view(&self) -> PlayerState {
        PlayerState {
            rx_cycle: self.rx_cycle,
            rx_counter: self.rx_counter,
            rx_buffer: self.rx_buffer@,
            playback_enabled: self.playback_enabled,
            playback_loop: self.playback_loop,
            playback_volume: self.playback_volume,
            audio_enabled: self.audio_enabled,
            track_index: self.track_index,
            audio: self.audio@,
            rom_path: self.rom_path@,
        }
    }
}

pub fn i16_from_bits(v: u16) -> (r: i16)
    ensures
        r == i16_of_bits(v),
{
    if v < 0x8000 {
        v as i16
    } else {
        ((v as i32) - 0x1_0000) as i16
    }
}

pub fn i16_bits(v: i16) -> (r: u16)
    ensures
        r == bits_of_i16(v),
{
    if v >= 0 {
        v as u16
    } else {
        ((v as i32) + 0x1_0000) as u16
    }
}

/// Writes the name of a track's file with `std::format!`: the number
/// in decimal, filled with zeros in front up to `width` digits, then
/// ".mp3". Only the widths that file names have are admitted.
#[verifier::external_body]
fn format_track_name(index: u16, width: usize) -> (r: String)
    requires
        1 <= width <= 4,
    ensures
        r@ == track_file_name(index, width as nat),
{
    format!("{:0width$}.mp3", index, width = width)
}

/// The names under which the file of a track is looked for, in turn:
/// its number with one, two, three and four digits at least.
pub fn track_file_names(index: u16) -> (names: Vec<String>)
    ensures
        names@.len() == 4,
        forall|k: int| 0 <= k < 4 ==> (#[trigger] names@[k])@ == track_file_name(index, (k + 1) as nat),
{
    let mut names: Vec<String> = Vec::new();
    let mut width: usize = 1;
    while width <= 4
        invariant
            1 <= width <= 5,
            names@.len() == width - 1,
            forall|k: int| 0 <= k < width - 1 ==> (#[trigger] names@[k])@ == track_file_name(index, (k + 1) as nat),
        decreases 5 - width,
    {
        names.push(format_track_name(index, width));
        width = width + 1;
    }
    names
}

/// The step from one level to another, in sixteen bits.
pub fn level_delta(to: i16, from: i16) -> (r: i16)
    ensures
        r == wrapped_delta(to, from),
{
    let d: i32 = (to as i32) - (from as i32);
    if d > 32767 {
        (d - 0x1_0000) as i16
    } else if d < -32768 {
        (d + 0x1_0000) as i16
    } else {
        d as i16
    }
}

/// Appends a 64-bit value, little-endian.
pub fn push_u64(out: &mut Vec<u8>, v: u64)
    ensures
        final(out)@ == old(out)@ + le64(v),
{
    proof {
        crate::bits::lemma_pow2_values();
        reveal_with_fuel(crate::bits::pow2, 60);
    }
    out.push((v % 256) as u8);
    out.push(((v / 0x100) % 256) as u8);
    out.push(((v / 0x1_0000) % 256) as u8);
    out.push(((v / 0x100_0000) % 256) as u8);
    out.push(((v / 0x1_0000_0000) % 256) as u8);
    out.push(((v / 0x100_0000_0000) % 256) as u8);
    out.push(((v / 0x1_0000_0000_0000) % 256) as u8);
    out.push(((v / 0x100_0000_0000_0000) % 256) as u8);
    assert(crate::bits::pow2(0) == 1);
    assert(crate::bits::pow2(8) == 0x100);
    assert(crate::bits::pow2(16) == 0x1_0000);
    assert(crate::bits::pow2(24) == 0x100_0000);
    assert(crate::bits::pow2(32) == 0x1_0000_0000);
    assert(crate::bits::pow2(40) == 0x100_0000_0000);
    assert(crate::bits::pow2(48) == 0x1_0000_0000_0000);
    assert(crate::bits::pow2(56) == 0x100_0000_0000_0000);
    assert(out@ =~= old(out)@ + le64(v));
}

impl Yx5200 {
    pub open spec fn wf(&self) -> bool {
        self@.valid()
    }

    /// A chip that looks for its tracks under `rom_path`: idle, at full
    /// volume, the output on.
    pub fn new(rom_path: &str) -> (r: Self)
        ensures
            r.wf(),
            r@ == PlayerState::initial(rom_path@),
    {
        let r = Yx5200 {
            rx_cycle: 0,
            rx_counter: 0,
            rx_buffer: [0; 10],
            playback_enabled: false,
            playback_loop: false,
            playback_volume: MAX_VOLUME,
            audio_enabled: true,
            track_index: 0,
            audio: [0; 2],
            rom_path: rom_path.to_owned(),
        };
        assert(r@.rx_buffer =~= PlayerState::initial(rom_path@).rx_buffer);
        assert(r@.audio =~= PlayerState::initial(rom_path@).audio);
        r
    }

    /// Puts the chip back into its initial state. The host closes the
    /// open track.
    pub fn reset(&mut self)
        requires
            old(self).wf(),
        ensures
            final(self).wf(),
            final(self)@ == PlayerState::initial(old(self)@.rom_path),
    {
        self.rx_cycle = 0;
        self.rx_counter = 0;
        self.rx_buffer = [0; 10];
        self.playback_enabled = false;
        self.playback_loop = false;
        self.playback_volume = MAX_VOLUME;
        self.audio_enabled = true;
        self.track_index = 0;
        self.audio = [0; 2];
        assert(self@.rx_buffer =~= PlayerState::initial(old(self)@.rom_path).rx_buffer);
        assert(self@.audio =~= PlayerState::initial(old(self)@.rom_path).audio);
    }

    /// Takes the state of the serial line for one bit time. Any value
    /// but zero is a high line.
    pub fn write(&mut self, rx_data: u8) -> (request: TrackRequest)
        requires
            old(self).wf(),
        ensures
            final(self).wf(),
            (final(self)@, request) == old(self)@.received(rx_data != 0),
    {
        let c: usize = self.rx_counter as usize;
        let high = rx_data != 0;
        if self.rx_cycle == 0 {
            if !high {
                self.rx_buffer[c] = 0;
                self.rx_cycle = 1;
            }
            TrackRequest::Idle
        } else if self.rx_cycle < 9 {
            let bit: u8 = if high { 1 } else { 0 };
            self.rx_buffer[c] = self.rx_buffer[c] | (bit << (self.rx_cycle - 1));
            self.rx_cycle = self.rx_cycle + 1;
            TrackRequest::Idle
        } else {
            self.rx_cycle = 0;
            if high {
                if c + 1 < RX_BUFFER_SIZE {
                    self.rx_counter = self.rx_counter + 1;
                    TrackRequest::Idle
                } else {
                    self.rx_counter = 0;
                    self.process_cmd()
                }
            } else {
                TrackRequest::Idle
            }
        }
    }

    fn process_cmd(&mut self) -> (request: TrackRequest)
        requires
            old(self).wf(),
            old(self)@.rx_cycle == 0,
            old(self)@.rx_counter == 0,
        ensures
            final(self).wf(),
            final(self)@.rx_cycle == 0,
            final(self)@.rx_counter == 0,
            (final(self)@, request) == old(self)@.commanded(),
    {
        let code: u8 = self.rx_buffer[3];
        let arg: u16 = make_word(self.rx_buffer[6], self.rx_buffer[5]);
        if code == 0x01 {
            if self.track_index > 0 && self.track_index <= MAX_TRACK_INDEX {
                let index = self.track_index + 1;
                self.unload_track();
                return TrackRequest::Load { index, playback_loop: self.playback_loop };
            }
        } else if code == 0x02 {
            if self.track_index > 1 {
                let index = self.track_index - 1;
                self.unload_track();
                return TrackRequest::Load { index, playback_loop: self.playback_loop };
            }
        } else if code == 0x03 || code == 0x08 {
            if arg > 0 && arg <= MAX_TRACK_INDEX {
                self.unload_track();
                return TrackRequest::Load { index: arg, playback_loop: code == 0x03 };
            }
        } else if code == 0x04 {
            if self.playback_volume < MAX_VOLUME {
                self.playback_volume = self.playback_volume + 1;
            }
        } else if code == 0x05 {
            if self.playback_volume > 0 {
                self.playback_volume = self.playback_volume - 1;
            }
        } else if code == 0x06 {
            if arg <= MAX_VOLUME as u16 {
                self.playback_volume = arg as u8;
            }
        } else if code == 0x0C {
            self.reset();
            return TrackRequest::Unload;
        } else if code == 0x0D {
            if self.track_index != 0 {
                self.playback_enabled = true;
            }
        } else if code == 0x0E {
            self.playback_enabled = false;
        } else if code == 0x16 {
            self.unload_track();
            return TrackRequest::Unload;
        } else if code == 0x19 {
            if self.playback_enabled {
                self.playback_loop = self.rx_buffer[6] % 2 == 0;
            }
        } else if code == 0x1A {
            self.audio_enabled = self.rx_buffer[6] % 2 == 0;
        }
        TrackRequest::Idle
    }

    /// Records that the host opened track `index` and playback started.
    pub fn load_track(&mut self, index: u16, playback_loop: bool)
        requires
            old(self).wf(),
        ensures
            final(self).wf(),
            final(self)@ == (PlayerState {
                track_index: index,
                playback_enabled: true,
                playback_loop,
                ..old(self)@.unloaded()
            }),
    {
        self.unload_track();
        self.track_index = index;
        self.playback_enabled = true;
        self.playback_loop = playback_loop;
    }

    /// Records that no track is open any more.
    pub fn unload_track(&mut self)
        requires
            old(self).wf(),
        ensures
            final(self).wf(),
            final(self)@ == old(self)@.unloaded(),
    {
        if self.track_index != 0 {
            self.playback_enabled = false;
            self.track_index = 0;
        }
    }

    /// Sets the levels of the two output channels.
    pub fn set_output(&mut self, left: i16, right: i16)
        requires
            old(self).wf(),
        ensures
            final(self).wf(),
            final(self)@ == (PlayerState { audio: seq![left, right], ..old(self)@ }),
    {
        self.audio = [left, right];
        assert(self@.audio =~= seq![left, right]);
    }

    /// A decoded sample at the chip's volume: scaled by the volume over
    /// the highest volume, rounded toward zero, and kept within sixteen
    /// bits.
    pub fn scale_sample(&self, sample: i16) -> (r: i16)
        ensures
            r == crate::svp::fixed::clamp_int(
                crate::svp::fixed::trunc_div(sample * self@.playback_volume, MAX_VOLUME as int),
                i16::MIN as int,
                i16::MAX as int,
            ),
    {
        proof {
            crate::svp::fixed::lemma_product_bound(sample as int, self.playback_volume as int, 32768, 255);
        }
        let p: i32 = (sample as i32) * (self.playback_volume as i32);
        let q: i32 = if p >= 0 {
            p / 30
        } else {
            -((-p) / 30)
        };
        if q < i16::MIN as i32 {
            i16::MIN
        } else if q > i16::MAX as i32 {
            i16::MAX
        } else {
            q as i16
        }
    }

    /// Takes decoded samples, `channels` to a frame, to the outputs. For
    /// each frame it gives the steps of the two outputs from the levels
    /// that they had before the call; the outputs stay at the levels of
    /// the last frame.
    pub fn mix_frames(&mut self, buffer: &[i16], channels: usize) -> (deltas: Vec<(i16, i16)>)
        requires
            old(self).wf(),
            1 <= channels <= 2,
            buffer@.len() as int % (channels as int) == 0,
        ensures
            final(self).wf(),
            deltas@.len() == buffer@.len() as int / (channels as int),
            forall|k: int|
                0 <= k < deltas@.len() ==> #[trigger] deltas@[k] == (
                    wrapped_delta(old(self)@.frame_levels(buffer@, channels as int, k).0, old(self)@.audio[0]),
                    wrapped_delta(old(self)@.frame_levels(buffer@, channels as int, k).1, old(self)@.audio[1]),
                ),
            final(self)@ == (PlayerState {
                audio: if deltas@.len() == 0 {
                    old(self)@.audio
                } else {
                    seq![
                        old(self)@.frame_levels(buffer@, channels as int, deltas@.len() - 1).0,
                        old(self)@.frame_levels(buffer@, channels as int, deltas@.len() - 1).1,
                    ]
                },
                ..old(self)@
            }),
    {
        let prev_l = self.audio[0];
        let prev_r = self.audio[1];
        let size: usize = buffer.len();
        let frames: usize = size / channels;
        assert(frames * channels == buffer@.len()) by (nonlinear_arith)
            requires
                frames == buffer@.len() as int / (channels as int),
                buffer@.len() as int % (channels as int) == 0,
                channels > 0,
        ;
        let mut deltas: Vec<(i16, i16)> = Vec::new();
        let mut k: usize = 0;
        while k < frames
            invariant
                k <= frames,
                1 <= channels <= 2,
                frames * channels == buffer@.len(),
                size == buffer@.len(),
                self.wf(),
                deltas@.len() == k,
                prev_l == old(self)@.audio[0],
                prev_r == old(self)@.audio[1],
                forall|j: int|
                    0 <= j < k ==> #[trigger] deltas@[j] == (
                        wrapped_delta(old(self)@.frame_levels(buffer@, channels as int, j).0, prev_l),
                        wrapped_delta(old(self)@.frame_levels(buffer@, channels as int, j).1, prev_r),
                    ),
                self@ == (PlayerState {
                    audio: if k == 0 {
                        old(self)@.audio
                    } else {
                        seq![
                            old(self)@.frame_levels(buffer@, channels as int, k - 1).0,
                            old(self)@.frame_levels(buffer@, channels as int, k - 1).1,
                        ]
                    },
                    ..old(self)@
                }),
            decreases frames - k,
        {
            assert(0 <= k * channels && k * channels + channels <= frames * channels) by (nonlinear_arith)
                requires
                    0 <= k < frames,
                    channels >= 1,
            ;
            let l = self.scale_sample(buffer[k * channels]);
            let r = self.scale_sample(buffer[k * channels + channels - 1]);
            deltas.push((level_delta(l, prev_l), level_delta(r, prev_r)));
            self.audio = [l, r];
            assert(self@.audio =~= seq![l, r]);
            k = k + 1;
        }
        deltas
    }

    /// Tells the host what to do after it read `available` of `wanted`
    /// samples of the open track; `failed` says that decoding failed.
    pub fn on_read(&self, failed: bool, available: usize, wanted: usize) -> (r: TrackEnd)
        ensures
            r == after_read(self@.playback_loop, failed, available as int, wanted as int),
    {
        if available >= wanted {
            TrackEnd::Complete
        } else if self.playback_loop && !failed {
            TrackEnd::Rewind
        } else {
            TrackEnd::Stop
        }
    }

    /// Brings both outputs to rest and gives the steps that take them
    /// there.
    pub fn silence(&mut self) -> (delta: (i16, i16))
        requires
            old(self).wf(),
        ensures
            final(self).wf(),
            delta == (wrapped_delta(0, old(self)@.audio[0]), wrapped_delta(0, old(self)@.audio[1])),
            final(self)@ == (PlayerState { audio: seq![0i16, 0i16], ..old(self)@ }),
    {
        let delta = (level_delta(0, self.audio[0]), level_delta(0, self.audio[1]));
        self.audio = [0, 0];
        assert(self@.audio =~= seq![0i16, 0i16]);
        delta
    }

    /// Whether samples are to be decoded: a track is open and plays.
    pub fn is_playing(&self) -> (r: bool)
        ensures
            r == (self@.playback_enabled && self@.track_index != 0),
    {
        self.playback_enabled && self.track_index != 0
    }

    /// Whether decoded samples are to be heard: the volume is up and
    /// the output on.
    pub fn is_audible(&self) -> (r: bool)
        ensures
            r == (self@.playback_volume > 0 && self@.audio_enabled),
    {
        self.playback_volume > 0 && self.audio_enabled
    }

    pub fn track_index(&self) -> (r: u16)
        ensures
            r == self@.track_index,
    {
        self.track_index
    }

    pub fn playback_loop(&self) -> (r: bool)
        ensures
            r == self@.playback_loop,
    {
        self.playback_loop
    }

    pub fn playback_volume(&self) -> (r: u8)
        ensures
            r == self@.playback_volume,
    {
        self.playback_volume
    }

    pub fn rom_path(&self) -> (r: &str)
        ensures
            r@ == self@.rom_path,
    {
        self.rom_path.as_str()
    }

    /// Appends the snapshot of the chip and the decoder's position.
    pub fn context_save(&self, state: &mut Vec<u8>, cur_sample: u64)
        requires
            self.wf(),
        ensures
            final(state)@ == old(state)@ + self@.snapshot(cur_sample),
    {
        let ghost before = state@;
        state.push(self.rx_cycle);
        state.push(self.rx_counter);
        push_bytes(state, self.rx_buffer.as_slice());
        let ghost head = state@;
        state.push(flag_byte(self.playback_enabled));
        state.push(flag_byte(self.playback_loop));
        state.push(self.playback_volume);
        state.push(flag_byte(self.audio_enabled));
        assert(state@ =~= before + (seq![self.rx_cycle, self.rx_counter] + self@.rx_buffer + seq![
            flag_of(self.playback_enabled),
            flag_of(self.playback_loop),
            self.playback_volume,
            flag_of(self.audio_enabled),
        ]));
        push_u16(state, self.track_index);
        push_u16(state, i16_bits(self.audio[0]));
        push_u16(state, i16_bits(self.audio[1]));
        push_u64(state, cur_sample);
        assert(state@ =~= before + self@.snapshot(cur_sample));
    }

    /// Loads a snapshot. It returns the bytes read and the track that
    /// the host is to open again (0 for none). A snapshot that is too
    /// short, or holds a receiver state that cannot occur, is refused
    /// before anything is changed.
    pub fn context_load(&mut self, state: &[u8]) -> (r: Result<(usize, u16), StateError>)
        requires
            old(self).wf(),
        ensures
            final(self).wf(),
            r is Ok == PlayerState::loadable(state@),
            r is Err ==> final(self)@ == old(self)@,
            r matches Ok(read) ==> read.0 == SNAPSHOT_BYTES && read.1 == (if 0 < u16_at(state@, 16) <= MAX_TRACK_INDEX {
                u16_at(state@, 16)
            } else {
                0u16
            }) && final(self)@ == old(self)@.restored(state@),
    {
        if state.len() < SNAPSHOT_BYTES || state[0] > 9 || state[1] as usize >= RX_BUFFER_SIZE {
            return Err(StateError::Invalid);
        }
        self.rx_cycle = state[0];
        self.rx_counter = state[1];
        let mut i: usize = 0;
        while i < RX_BUFFER_SIZE
            invariant
                i <= RX_BUFFER_SIZE,
                state@.len() >= SNAPSHOT_BYTES,
                self@ == (PlayerState {
                    rx_cycle: state@[0],
                    rx_counter: state@[1],
                    rx_buffer: self@.rx_buffer,
                    ..old(self)@
                }),
                self@.rx_buffer.len() == RX_BUFFER_SIZE,
                forall|j: int| 0 <= j < i ==> self@.rx_buffer[j] == state@[2 + j],
            decreases RX_BUFFER_SIZE - i,
        {
            self.rx_buffer[i] = state[2 + i];
            i = i + 1;
        }
        self.playback_enabled = state[12] != 0;
        self.playback_loop = state[13] != 0;
        self.playback_volume = state[14];
        self.audio_enabled = state[15] != 0;
        let index: u16 = read_u16(state, 16);
        self.track_index = 0;
        self.audio = [i16_from_bits(read_u16(state, 18)), i16_from_bits(read_u16(state, 20))];
        assert(self@.rx_buffer =~= state@.subrange(2, 12));
        assert(self@.audio =~= seq![i16_of_bits(u16_at(state@, 18)), i16_of_bits(u16_at(state@, 20))]);
        let reopen: u16 = if index > 0 && index <= MAX_TRACK_INDEX {
            index
        } else {
            0
        };
        Ok((SNAPSHOT_BYTES, reopen))
    }
}

} // verus!
