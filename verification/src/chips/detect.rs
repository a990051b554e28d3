//! Telling from a ROM image and its path which chip a cartridge carries.

use vstd::prelude::*;
use crate::chips::ChipType;
use crate::text::{contains_text, ends_in, ends_with_text, file_name_of, lowercase, lowercase_of, occurs_in};

verus! {

/// Size from which a ROM image can only be a Paprium: 64 MiB.
pub const PAPRIUM_ROM_SIZE: usize = 0x400_0000;

/// Offset of the console name in a ROM header.
pub const HEADER_OFFSET: usize = 0x100;

/// Offset of the signature of a Sega PCM cartridge.
pub const PCM_SIGNATURE_OFFSET: usize = 0x200;

/// The bytes `pattern` stand in `data` at `offset`.
pub open spec fn bytes_at(data: Seq<u8>, offset: int, pattern: Seq<u8>) -> bool {
    offset + pattern.len() <= data.len() && data.subrange(offset, offset + pattern.len()) == pattern
}

/// The bytes `pattern` occur in `data` between `from` and `to`.
pub open spec fn bytes_within(data: Seq<u8>, from: int, to: int, pattern: Seq<u8>) -> bool {
    exists|i: int| from <= i && i + pattern.len() <= to && #[trigger] bytes_at(data, i, pattern)
}

/// "SEGA".
pub open spec fn sega() -> Seq<u8> {
    seq![0x53u8, 0x45u8, 0x47u8, 0x41u8]
}

/// "VIRTUA RACING".
pub open spec fn virtua_racing() -> Seq<u8> {
    seq![
        0x56u8, 0x49u8, 0x52u8, 0x54u8, 0x55u8, 0x41u8, 0x20u8, 0x52u8, 0x41u8, 0x43u8, 0x49u8, 0x4Eu8, 0x47u8,
    ]
}

/// Some byte of `data` between `from` and `to` is not zero.
pub open spec fn any_nonzero(data: Seq<u8>, from: int, to: int) -> bool {
    exists|i: int| from <= i < to && #[trigger] data[i] != 0
}

/// The ROM carries the title of the one SVP game: at the start of the
/// header, or in the line behind a header that starts with "SEGA".
pub open spec fn has_svp_title(rom: Seq<u8>) -> bool {
    bytes_at(rom, HEADER_OFFSET as int, virtua_racing()) || (rom.len() >= 0x120 && bytes_at(
        rom,
        HEADER_OFFSET as int,
        sega(),
    ) && bytes_within(rom, 0x110, 0x120, virtua_racing()))
}

/// The ROM is a Paprium: by its file name, by its size, or by a header
/// that is neither empty nor a console's own.
pub open spec fn is_paprium(rom: Seq<u8>, lower_name: Seq<char>) -> bool {
    occurs_in(lower_name, "paprium"@) || occurs_in(lower_name, "papri"@) || rom.len() >= PAPRIUM_ROM_SIZE || (
    rom.len() >= 0x110 && any_nonzero(rom, 0x100, 0x110) && !bytes_at(rom, HEADER_OFFSET as int, sega())
        && !has_svp_title(rom))
}

/// The chip of a cartridge, from its ROM image, the lower-case form of
/// its path and the lower-case form of its file name. The first of
/// these that applies decides: Paprium; the SVP by its title; the MP3
/// player by its path; Action Replay, Game Genie and MegaSD by their
/// file names; Sega PCM by its signature.
pub open spec fn chip_for(rom: Seq<u8>, lower_path: Seq<char>, lower_name: Seq<char>) -> ChipType {
    if is_paprium(rom, lower_name) {
        ChipType::Paprium
    } else if has_svp_title(rom) {
        ChipType::SVP
    } else if ends_in(lower_path, ".mp3"@) || occurs_in(lower_path, "yx5200"@) || occurs_in(lower_path, "mp3"@) {
        ChipType::Yx5200
    } else if occurs_in(lower_name, "action"@) && occurs_in(lower_name, "replay"@) {
        ChipType::ActionReplay
    } else if occurs_in(lower_name, "game"@) && occurs_in(lower_name, "genie"@) {
        ChipType::GameGenie
    } else if occurs_in(lower_name, "megasd"@) || occurs_in(lower_name, "mega_sd"@) {
        ChipType::MegaSD
    } else if bytes_at(rom, PCM_SIGNATURE_OFFSET as int, sega()) {
        ChipType::SegaPCM
    } else {
        ChipType::NoChip
    }
}

/// Whether `pattern` stands in `data` at `offset`.
pub fn matches_at(data: &[u8], offset: usize, pattern: &[u8]) -> (r: bool)
    ensures
        r == bytes_at(data@, offset as int, pattern@),
{
    let n = pattern.len();
    let size = data.len();
    if n > size || offset > size - n {
        return false;
    }
    let mut i: usize = 0;
    while i < n
        invariant
            i <= n,
            n == pattern@.len(),
            size == data@.len(),
            n <= size,
            offset <= size - n,
            forall|j: int| 0 <= j < i ==> data@[offset + j] == pattern@[j],
        decreases n - i,
    {
        if data[offset + i] != pattern[i] {
            assert(data@.subrange(offset as int, offset + n)[i as int] != pattern@[i as int]);
            return false;
        }
        i = i + 1;
    }
    assert(data@.subrange(offset as int, offset + n) =~= pattern@);
    true
}

/// Whether `pattern` occurs in `data` between `from` and `to`.
pub fn matches_within(data: &[u8], from: usize, to: usize, pattern: &[u8]) -> (r: bool)
    ensures
        r == bytes_within(data@, from as int, to as int, pattern@),
{
    let n = pattern.len();
    if n > to || from > to - n {
        return false;
    }
    let last: usize = to - n;
    let mut i: usize = from;
    while i < last
        invariant
            from <= i <= last,
            last == to - n,
            n == pattern@.len(),
            forall|j: int| from <= j < i ==> !bytes_at(data@, j, pattern@),
        decreases last - i,
    {
        if matches_at(data, i, pattern) {
            return true;
        }
        i = i + 1;
    }
    matches_at(data, last, pattern)
}

/// Whether some byte of `data` between `from` and `to` is not zero.
pub fn has_nonzero(data: &[u8], from: usize, to: usize) -> (r: bool)
    requires
        from <= to <= data@.len(),
    ensures
        r == any_nonzero(data@, from as int, to as int),
{
    let mut i: usize = from;
    while i < to
        invariant
            from <= i <= to,
            to <= data@.len(),
            forall|j: int| from <= j < i ==> data@[j] == 0,
        decreases to - i,
    {
        if data[i] != 0 {
            return true;
        }
        i = i + 1;
    }
    false
}

/// Whether a ROM carries the title of the SVP game.
pub fn detect_svp_title(rom_data: &[u8]) -> (r: bool)
    ensures
        r == has_svp_title(rom_data@),
{
    let sega_bytes: [u8; 4] = [0x53, 0x45, 0x47, 0x41];
    let title: [u8; 13] = [0x56, 0x49, 0x52, 0x54, 0x55, 0x41, 0x20, 0x52, 0x41, 0x43, 0x49, 0x4E, 0x47];
    assert(sega_bytes@ =~= sega());
    assert(title@ =~= virtua_racing());
    if matches_at(rom_data, HEADER_OFFSET, title.as_slice()) {
        return true;
    }
    rom_data.len() >= 0x120 && matches_at(rom_data, HEADER_OFFSET, sega_bytes.as_slice()) && matches_within(
        rom_data,
        0x110,
        0x120,
        title.as_slice(),
    )
}

/// Whether a ROM is a Paprium, from the image and the lower-case form
/// of its file name.
pub fn is_paprium_game(rom_data: &[u8], lower_name: &str) -> (r: bool)
    ensures
        r == is_paprium(rom_data@, lower_name@),
{
    if contains_text(lower_name, "paprium") || contains_text(lower_name, "papri") {
        return true;
    }
    if rom_data.len() >= PAPRIUM_ROM_SIZE {
        return true;
    }
    if rom_data.len() >= 0x110 {
        let sega_bytes: [u8; 4] = [0x53, 0x45, 0x47, 0x41];
        assert(sega_bytes@ =~= sega());
        if has_nonzero(rom_data, 0x100, 0x110) && !matches_at(rom_data, HEADER_OFFSET, sega_bytes.as_slice())
            && !detect_svp_title(rom_data) {
            return true;
        }
    }
    false
}

/// Tells the chip of a cartridge from its ROM image, the lower-case
/// form of its path and the lower-case form of its file name.
pub fn detect_chip_from(rom_data: &[u8], lower_path: &str, lower_name: &str) -> (r: ChipType)
    ensures
        r == chip_for(rom_data@, lower_path@, lower_name@),
{
    if is_paprium_game(rom_data, lower_name) {
        return ChipType::Paprium;
    }
    if detect_svp_title(rom_data) {
        return ChipType::SVP;
    }
    if ends_with_text(lower_path, ".mp3") || contains_text(lower_path, "yx5200") || contains_text(
        lower_path,
        "mp3",
    ) {
        return ChipType::Yx5200;
    }
    if contains_text(lower_name, "action") && contains_text(lower_name, "replay") {
        return ChipType::ActionReplay;
    }
    if contains_text(lower_name, "game") && contains_text(lower_name, "genie") {
        return ChipType::GameGenie;
    }
    if contains_text(lower_name, "megasd") || contains_text(lower_name, "mega_sd") {
        return ChipType::MegaSD;
    }
    let sega_bytes: [u8; 4] = [0x53, 0x45, 0x47, 0x41];
    assert(sega_bytes@ =~= sega());
    if matches_at(rom_data, PCM_SIGNATURE_OFFSET, sega_bytes.as_slice()) {
        return ChipType::SegaPCM;
    }
    ChipType::NoChip
}

/// Tells the chip of a cartridge from its ROM image and its path. The
/// file name is the last component of the path as the platform sees it;
/// a path without one has the empty name.
pub fn detect_chip(rom_data: &[u8], rom_path: &str) -> (r: ChipType)
    ensures
        exists|name: Seq<char>|
            occurs_in(rom_path@, name) && r == #[trigger] chip_for(
                rom_data@,
                lowercase_of(rom_path@),
                lowercase_of(name),
            ),
{
    let lower_path = lowercase(rom_path);
    let found = file_name_of(rom_path);
    let name = match found {
        Some(name) => name,
        None => "".to_owned(),
    };
    proof {
        reveal_strlit("");
        if found is None {
            assert(rom_path@.subrange(0, 0 + name@.len() as int) =~= name@);
        }
        assert(occurs_in(rom_path@, name@));
    }
    let lower_name = lowercase(name.as_str());
    detect_chip_from(rom_data, lower_path.as_str(), lower_name.as_str())
}

} // verus!
