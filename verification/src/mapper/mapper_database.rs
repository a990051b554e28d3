//! The database of cartridges with mappers, and the detection of the
//! mapper of a ROM.

use vstd::prelude::*;
use crate::mapper::mapper_common::{MapperConfig, MapperType};
use crate::mapper::RomInfo;
use crate::text::{contains_text, occurs_in};

verus! {

/// Entries in the database.
pub const DATABASE_SIZE: usize = 5;

/// Largest ROM that needs no mapper: 4 MiB.
pub const LINEAR_ROM_SIZE: usize = 0x40_0000;

/// A cartridge that the database knows.
pub struct CartridgeDatabaseEntry {
    /// Product code, or empty for any.
    pub product_id: &'static str,
    /// Checksum in the header, or 0 for any.
    pub checksum: u16,
    /// Checksum of the ROM, or 0 for any.
    pub real_checksum: u16,
    pub mapper_type: MapperType,
    pub special_pattern: u32,
    pub config: MapperConfig,
}

/// The product code of entry `k`.
pub open spec fn entry_product(k: int) -> Seq<char> {
    if k == 2 {
        "T-5740"@
    } else if k == 3 {
        "00000000-42"@
    } else {
        ""@
    }
}

/// The header checksum of entry `k`.
pub open spec fn entry_checksum(k: int) -> u16 {
    if k == 1 {
        0xFFFF
    } else {
        0
    }
}

/// The ROM checksum of entry `k`.
pub open spec fn entry_real_checksum(k: int) -> u16 {
    if k == 0 {
        0x06AB
    } else if k == 1 {
        0xF863
    } else if k == 4 {
        0x2326
    } else {
        0
    }
}

/// The mapper of entry `k`.
pub open spec fn entry_mapper(k: int) -> MapperType {
    if k == 0 || k == 1 {
        MapperType::Realtec
    } else if k == 2 {
        MapperType::T5740
    } else if k == 3 {
        MapperType::Flash
    } else {
        MapperType::Radica
    }
}

/// The configuration that the database has for a mapper type: plain,
/// but for the bank shift of the T-5740.
pub open spec fn config_for(mapper_type: MapperType) -> MapperConfig {
    MapperConfig { bankshift: mapper_type == MapperType::T5740, ..MapperConfig::plain(mapper_type) }
}

/// Entry `k` is the cartridge of a header: its product code occurs in
/// the header's (an empty one in any), and its checksums, where it has
/// them, are the header's.
pub open spec fn entry_matches(k: int, product: Seq<char>, checksum: u16, real_checksum: u16) -> bool {
    &&& entry_product(k).len() == 0 || occurs_in(product, entry_product(k))
    &&& entry_checksum(k) == 0 || entry_checksum(k) == checksum
    &&& entry_real_checksum(k) == 0 || entry_real_checksum(k) == real_checksum
}

/// The first entry at or after `from` that matches, or the size of
/// the database.
pub open spec fn first_entry(product: Seq<char>, checksum: u16, real_checksum: u16, from: int) -> int
    decreases DATABASE_SIZE - from,
{
    if from >= DATABASE_SIZE {
        DATABASE_SIZE as int
    } else if entry_matches(from, product, checksum, real_checksum) {
        from
    } else {
        first_entry(product, checksum, real_checksum, from + 1)
    }
}

/// The mapper of a ROM that the database does not know: standard for
/// the SVP game and for Sonic & Knuckles, custom for the SSF and MegaSD
/// headers, by product number for the SF boards, custom past 4 MiB,
/// else standard.
pub open spec fn heuristic_mapper(
    rom: Seq<u8>,
    product: Seq<char>,
    international: Seq<char>,
    console_type: Seq<char>,
    rom_type: Seq<char>,
) -> MapperType {
    if rom.len() > 0x1C9 && rom[0x1C8] == 0x53 && rom[0x1C9] == 0x56 {
        MapperType::Standard
    } else if occurs_in(international, "SONIC & KNUCKLES"@) {
        MapperType::Standard
    } else if occurs_in(console_type, "SEGA SSF"@) {
        MapperType::Custom
    } else if occurs_in(console_type, "SEGA SSF2"@) && rom.len() <= 0x80_0000 {
        MapperType::Custom
    } else if occurs_in(console_type, "SEGA MEGASD"@) && rom.len() <= LINEAR_ROM_SIZE {
        MapperType::Custom
    } else if occurs_in(rom_type, "SF"@) && occurs_in(product, "001"@) {
        MapperType::Sf001
    } else if occurs_in(rom_type, "SF"@) && occurs_in(product, "002"@) {
        MapperType::Sf002
    } else if occurs_in(rom_type, "SF"@) && occurs_in(product, "004"@) {
        MapperType::Sf004
    } else if rom.len() > LINEAR_ROM_SIZE {
        MapperType::Custom
    } else {
        MapperType::Standard
    }
}

/// The mapper of a ROM: the database's, else by the header.
pub open spec fn mapper_of(rom_info: RomInfo, rom: Seq<u8>) -> MapperType {
    let k = first_entry(rom_info.product@, rom_info.checksum, rom_info.real_checksum, 0);
    if k < DATABASE_SIZE {
        entry_mapper(k)
    } else {
        heuristic_mapper(
            rom,
            rom_info.product@,
            rom_info.international@,
            rom_info.console_type@,
            rom_info.rom_type@,
        )
    }
}

/// Entry `k` of the database.
pub fn database_entry(k: usize) -> (r: CartridgeDatabaseEntry)
    requires
        k < DATABASE_SIZE,
    ensures
        r.product_id@ == entry_product(k as int),
        r.checksum == entry_checksum(k as int),
        r.real_checksum == entry_real_checksum(k as int),
        r.mapper_type == entry_mapper(k as int),
        r.special_pattern == 0,
        r.config == config_for(entry_mapper(k as int)),
{
    if k == 0 {
        CartridgeDatabaseEntry {
            product_id: "",
            checksum: 0x0000,
            real_checksum: 0x06AB,
            mapper_type: MapperType::Realtec,
            special_pattern: 0,
            config: MapperConfig::of_type(MapperType::Realtec),
        }
    } else if k == 1 {
        CartridgeDatabaseEntry {
            product_id: "",
            checksum: 0xFFFF,
            real_checksum: 0xF863,
            mapper_type: MapperType::Realtec,
            special_pattern: 0,
            config: MapperConfig::of_type(MapperType::Realtec),
        }
    } else if k == 2 {
        let mut config = MapperConfig::of_type(MapperType::T5740);
        config.bankshift = true;
        CartridgeDatabaseEntry {
            product_id: "T-5740",
            checksum: 0,
            real_checksum: 0,
            mapper_type: MapperType::T5740,
            special_pattern: 0,
            config,
        }
    } else if k == 3 {
        CartridgeDatabaseEntry {
            product_id: "00000000-42",
            checksum: 0,
            real_checksum: 0,
            mapper_type: MapperType::Flash,
            special_pattern: 0,
            config: MapperConfig::of_type(MapperType::Flash),
        }
    } else {
        CartridgeDatabaseEntry {
            product_id: "",
            checksum: 0x0000,
            real_checksum: 0x2326,
            mapper_type: MapperType::Radica,
            special_pattern: 0,
            config: MapperConfig::of_type(MapperType::Radica),
        }
    }
}

/// Tells the mapper of a ROM.
pub fn detect_mapper(rom_info: &RomInfo, rom_data: &[u8]) -> (r: MapperType)
    ensures
        r == mapper_of(*rom_info, rom_data@),
{
    let product = rom_info.product.as_str();
    let mut k: usize = 0;
    while k < DATABASE_SIZE
        invariant
            k <= DATABASE_SIZE,
            product@ == rom_info.product@,
            first_entry(rom_info.product@, rom_info.checksum, rom_info.real_checksum, 0) == first_entry(
                rom_info.product@,
                rom_info.checksum,
                rom_info.real_checksum,
                k as int,
            ),
        decreases DATABASE_SIZE - k,
    {
        let entry = database_entry(k);
        let named = if k == 2 || k == 3 {
            contains_text(product, entry.product_id)
        } else {
            proof {
                reveal_strlit("");
            }
            true
        };
        proof {
            reveal_strlit("T-5740");
            reveal_strlit("00000000-42");
            reveal_strlit("");
        }
        if named {
            if (entry.checksum == 0 || entry.checksum == rom_info.checksum) && (entry.real_checksum == 0
                || entry.real_checksum == rom_info.real_checksum) {
                return entry.mapper_type;
            }
        }
        k = k + 1;
    }
    if rom_data.len() > 0x1C9 {
        if rom_data[0x1C8] == 0x53 && rom_data[0x1C9] == 0x56 {
            return MapperType::Standard;
        }
    }
    if contains_text(rom_info.international.as_str(), "SONIC & KNUCKLES") {
        return MapperType::Standard;
    }
    let console = rom_info.console_type.as_str();
    if contains_text(console, "SEGA SSF") {
        return MapperType::Custom;
    }
    if contains_text(console, "SEGA SSF2") && rom_data.len() <= 0x80_0000 {
        return MapperType::Custom;
    }
    if contains_text(console, "SEGA MEGASD") && rom_data.len() <= LINEAR_ROM_SIZE {
        return MapperType::Custom;
    }
    if contains_text(rom_info.rom_type.as_str(), "SF") {
        if contains_text(product, "001") {
            return MapperType::Sf001;
        } else if contains_text(product, "002") {
            return MapperType::Sf002;
        } else if contains_text(product, "004") {
            return MapperType::Sf004;
        }
    }
    if rom_data.len() > LINEAR_ROM_SIZE {
        return MapperType::Custom;
    }
    MapperType::Standard
}

/// The configuration of a cartridge of a mapper type.
pub fn get_mapper_config(mapper_type: MapperType, rom_info: &RomInfo) -> (r: MapperConfig)
    ensures
        r == config_for(mapper_type),
{
    let mut config = MapperConfig::of_type(mapper_type);
    if mapper_type == MapperType::T5740 {
        config.bankshift = true;
    }
    config
}

} // verus!
