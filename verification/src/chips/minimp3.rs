//! Headers of MP3 frames: what a frame's four header bytes say of it,
//! and where the first frame of a stream lies.

use vstd::prelude::*;
use crate::chips::paprium::Mp3FrameInfo;

verus! {

/// The most samples that a frame holds, for both channels.
pub const MINIMP3_MAX_SAMPLES_PER_FRAME: usize = 1152 * 2;

/// The layer field of a header: bits 1 and 2 of the second byte. Layer
/// 1 is 3, layer 3 is 1, and 0 is no layer.
pub open spec fn layer_of(hdr: Seq<u8>) -> int {
    if hdr.len() < 2 {
        0
    } else {
        (hdr[1] as int / 2) % 4
    }
}

/// The bitrate field: the upper four bits of the third byte.
pub open spec fn bitrate_index_of(hdr: Seq<u8>) -> int {
    if hdr.len() < 3 {
        0
    } else {
        hdr[2] as int / 16
    }
}

/// The sample rate field: bits 2 and 3 of the third byte.
pub open spec fn sample_rate_index_of(hdr: Seq<u8>) -> int {
    if hdr.len() < 3 {
        0
    } else {
        (hdr[2] as int / 4) % 4
    }
}

/// The header is one of MPEG 1.
pub open spec fn mpeg1(hdr: Seq<u8>) -> bool {
    (hdr[1] as int / 8) % 2 == 1
}

/// The header is one of MPEG 2.5.
pub open spec fn mpeg25(hdr: Seq<u8>) -> bool {
    (hdr[1] as int / 16) % 2 == 0
}

/// Four bytes are a frame header: the sync bits are set, and layer,
/// bitrate and sample rate are none of the reserved values.
pub open spec fn valid_header(hdr: Seq<u8>) -> bool {
    &&& hdr.len() >= 4
    &&& hdr[0] == 0xFF
    &&& (hdr[1] >= 0xF0 || hdr[1] == 0xE2 || hdr[1] == 0xE3)
    &&& layer_of(hdr) != 0
    &&& bitrate_index_of(hdr) != 15
    &&& sample_rate_index_of(hdr) != 3
}

/// The frame has one channel.
pub open spec fn mono(hdr: Seq<u8>) -> bool {
    hdr.len() >= 4 && hdr[3] >= 0xC0
}

/// Half the bitrates in kbit/s of a version and a layer field, by
/// bitrate field.
pub open spec fn half_rates(is_mpeg1: bool, layer: int) -> Seq<int> {
    if is_mpeg1 {
        if layer == 1 {
            seq![0, 16, 20, 24, 28, 32, 40, 48, 56, 64, 80, 96, 112, 128, 160]
        } else if layer == 2 {
            seq![0, 16, 24, 28, 32, 40, 48, 56, 64, 80, 96, 112, 128, 160, 192]
        } else {
            seq![0, 16, 32, 48, 64, 80, 96, 112, 128, 144, 160, 176, 192, 208, 224]
        }
    } else if layer == 3 {
        seq![0, 16, 24, 28, 32, 40, 48, 56, 64, 72, 80, 88, 96, 112, 128]
    } else {
        seq![0, 4, 8, 12, 16, 20, 24, 28, 32, 40, 48, 56, 64, 72, 80]
    }
}

/// The bitrate of a frame in kbit/s; 0 for the reserved bitrate field.
pub open spec fn bitrate_kbps_of(hdr: Seq<u8>) -> int {
    if 1 <= layer_of(hdr) <= 3 && bitrate_index_of(hdr) < 15 {
        2 * half_rates(mpeg1(hdr), layer_of(hdr))[bitrate_index_of(hdr)]
    } else {
        0
    }
}

/// The three base sample rates.
pub open spec fn base_rate(index: int) -> int {
    if index == 0 {
        44100
    } else if index == 1 {
        48000
    } else {
        32000
    }
}

/// The sample rate of a frame: the base rate, halved for a header that
/// is not MPEG 1 and halved for one that is not MPEG 2.5; 0 for the
/// reserved field.
pub open spec fn sample_rate_of(hdr: Seq<u8>) -> int {
    if sample_rate_index_of(hdr) < 3 {
        let first = if mpeg1(hdr) {
            base_rate(sample_rate_index_of(hdr))
        } else {
            base_rate(sample_rate_index_of(hdr)) / 2
        };
        if mpeg25(hdr) {
            first
        } else {
            first / 2
        }
    } else {
        0
    }
}

/// The samples of a frame for one channel.
pub open spec fn frame_samples_of(hdr: Seq<u8>) -> int {
    if layer_of(hdr) == 1 {
        384
    } else if (hdr[1] as int / 2) % 8 == 1 {
        576
    } else {
        1152
    }
}

/// A frame header stands at position `i` of a stream.
pub open spec fn frame_at(mp3: Seq<u8>, i: int) -> bool {
    0 <= i && i + 3 < mp3.len() && mp3[i + 1] >= 0xE0 && valid_header(mp3.subrange(i, i + 4))
}

/// What a header says of a frame of `frame_bytes` bytes.
pub open spec fn frame_info_of(hdr: Seq<u8>, frame_bytes: i32) -> Mp3FrameInfo {
    Mp3FrameInfo {
        frame_bytes,
        frame_offset: 0,
        channels: if mono(hdr) {
            1
        } else {
            2
        },
        hz: sample_rate_of(hdr) as i32,
        layer: layer_of(hdr) as i32,
        bitrate_kbps: bitrate_kbps_of(hdr) as i32,
    }
}

pub fn get_layer(hdr: &[u8]) -> (r: i32)
    ensures
        r == layer_of(hdr@),
        0 <= r <= 3,
{
    if hdr.len() < 2 {
        return 0;
    }
    ((hdr[1] / 2) % 4) as i32
}

pub fn get_bitrate_index(hdr: &[u8]) -> (r: u8)
    ensures
        r == bitrate_index_of(hdr@),
        r <= 15,
{
    if hdr.len() < 3 {
        return 0;
    }
    hdr[2] / 16
}

pub fn get_sample_rate_index(hdr: &[u8]) -> (r: u8)
    ensures
        r == sample_rate_index_of(hdr@),
        r <= 3,
{
    if hdr.len() < 3 {
        return 0;
    }
    (hdr[2] / 4) % 4
}

pub fn is_valid_header(hdr: &[u8]) -> (r: bool)
    ensures
        r == valid_header(hdr@),
{
    if hdr.len() < 4 {
        return false;
    }
    hdr[0] == 0xFF && (hdr[1] >= 0xF0 || hdr[1] == 0xE2 || hdr[1] == 0xE3) && get_layer(hdr) != 0
        && get_bitrate_index(hdr) != 15 && get_sample_rate_index(hdr) != 3
}

pub fn is_mono(hdr: &[u8]) -> (r: bool)
    ensures
        r == mono(hdr@),
{
    if hdr.len() < 4 {
        return false;
    }
    hdr[3] >= 0xC0
}

/// Half the bitrate for a version, a layer field and a bitrate field.
fn half_rate(is_mpeg1: bool, layer: i32, index: usize) -> (r: i32)
    requires
        1 <= layer <= 3,
        index < 15,
    ensures
        r == half_rates(is_mpeg1, layer as int)[index as int],
        0 <= r <= 224,
{
    let layer3: [i32; 15] = [0, 16, 20, 24, 28, 32, 40, 48, 56, 64, 80, 96, 112, 128, 160];
    let layer2: [i32; 15] = [0, 16, 24, 28, 32, 40, 48, 56, 64, 80, 96, 112, 128, 160, 192];
    let layer1: [i32; 15] = [0, 16, 32, 48, 64, 80, 96, 112, 128, 144, 160, 176, 192, 208, 224];
    let low1: [i32; 15] = [0, 16, 24, 28, 32, 40, 48, 56, 64, 72, 80, 88, 96, 112, 128];
    let low: [i32; 15] = [0, 4, 8, 12, 16, 20, 24, 28, 32, 40, 48, 56, 64, 72, 80];
    if is_mpeg1 {
        if layer == 1 {
            layer3[index]
        } else if layer == 2 {
            layer2[index]
        } else {
            layer1[index]
        }
    } else if layer == 3 {
        low1[index]
    } else {
        low[index]
    }
}

pub fn get_bitrate_kbps(hdr: &[u8]) -> (r: i32)
    requires
        hdr@.len() >= 4,
    ensures
        r == bitrate_kbps_of(hdr@),
        0 <= r <= 448,
{
    let layer = get_layer(hdr);
    let index = get_bitrate_index(hdr) as usize;
    if 1 <= layer && layer <= 3 && index < 15 {
        2 * half_rate((hdr[1] / 8) % 2 == 1, layer, index)
    } else {
        0
    }
}

pub fn get_sample_rate(hdr: &[u8]) -> (r: i32)
    requires
        hdr@.len() >= 4,
    ensures
        r == sample_rate_of(hdr@),
        0 <= r <= 48000,
{
    let index = get_sample_rate_index(hdr);
    if index < 3 {
        let base: i32 = if index == 0 {
            44100
        } else if index == 1 {
            48000
        } else {
            32000
        };
        let first: i32 = if (hdr[1] / 8) % 2 == 1 {
            base
        } else {
            base / 2
        };
        if (hdr[1] / 16) % 2 == 0 {
            first
        } else {
            first / 2
        }
    } else {
        0
    }
}

pub fn get_frame_samples(hdr: &[u8]) -> (r: i32)
    requires
        hdr@.len() >= 4,
    ensures
        r == frame_samples_of(hdr@),
        r == 384 || r == 576 || r == 1152,
{
    if get_layer(hdr) == 1 {
        384
    } else if (hdr[1] / 2) % 8 == 1 {
        576
    } else {
        1152
    }
}

/// The four bytes from a position on.
fn header_at(mp3: &[u8], i: usize) -> (r: [u8; 4])
    requires
        i + 3 < mp3@.len(),
    ensures
        r@ == mp3@.subrange(i as int, i + 4),
{
    let r: [u8; 4] = [mp3[i], mp3[i + 1], mp3[i + 2], mp3[i + 3]];
    assert(r@ =~= mp3@.subrange(i as int, i + 4));
    r
}

/// Finds the first frame among the first `mp3_bytes` bytes of a
/// stream. It gives the position of the first header, and 0 where there
/// is none: a frame at the very start is not told from no frame.
pub fn find_frame(mp3: &[u8], mp3_bytes: usize) -> (r: usize)
    requires
        mp3_bytes <= mp3@.len(),
    ensures
        r == 0 || (r + 1 < mp3_bytes && frame_at(mp3@, r as int)),
        forall|i: int| 0 <= i < r ==> !frame_at(mp3@, i),
        r == 0 ==> (mp3_bytes >= 2 && frame_at(mp3@, 0)) || forall|i: int|
            0 <= i && i + 1 < mp3_bytes ==> !frame_at(mp3@, i),
{
    if mp3_bytes < 2 {
        return 0;
    }
    let mut i: usize = 0;
    while i < mp3_bytes - 1
        invariant
            i <= mp3_bytes - 1,
            2 <= mp3_bytes <= mp3@.len(),
            forall|k: int| 0 <= k < i ==> !frame_at(mp3@, k),
        decreases mp3_bytes - i,
    {
        if mp3[i] == 0xFF && mp3[i + 1] >= 0xE0 {
            if mp3.len() - i > 3 {
                let hdr = header_at(mp3, i);
                if is_valid_header(hdr.as_slice()) {
                    return i;
                }
            }
        }
        assert(!frame_at(mp3@, i as int)) by {
            if i + 3 < mp3@.len() {
                assert(mp3@.subrange(i as int, i + 4)[0] == mp3@[i as int]);
            }
        }
        i = i + 1;
    }
    0
}

/// What the header at the start of `mp3` says of a frame of `mp3_bytes`
/// bytes, and the samples that the frame holds for one channel; none
/// where fewer than four bytes are given or they are no header.
pub fn decode_header(mp3: &[u8], mp3_bytes: i32) -> (r: Option<(Mp3FrameInfo, i32)>)
    ensures
        r is Some == (mp3_bytes >= 4 && mp3@.len() >= 4 && valid_header(mp3@.subrange(0, 4))),
        r matches Some(found) ==> found.0 == frame_info_of(mp3@.subrange(0, 4), mp3_bytes) && found.1
            == frame_samples_of(mp3@.subrange(0, 4)),
{
    if mp3_bytes < 4 || mp3.len() < 4 {
        return None;
    }
    let hdr = header_at(mp3, 0);
    if !is_valid_header(hdr.as_slice()) {
        return None;
    }
    let info = Mp3FrameInfo {
        frame_bytes: mp3_bytes,
        frame_offset: 0,
        channels: if is_mono(hdr.as_slice()) {
            1
        } else {
            2
        },
        hz: get_sample_rate(hdr.as_slice()),
        layer: get_layer(hdr.as_slice()),
        bitrate_kbps: get_bitrate_kbps(hdr.as_slice()),
    };
    Some((info, get_frame_samples(hdr.as_slice())))
}

} // verus!
