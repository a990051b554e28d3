//! Whole cartridges of the consoles that sit on the Mega Drive.

use vstd::prelude::*;
use crate::chips::ChipType;
use crate::eeprom::EepromType;
use crate::mapper::sega32x::CartridgeType;
use crate::mapper::Region;

pub mod sega32x_system;

verus! {

/// The console that a cartridge is for.
#[derive(Clone, Copy, Debug, PartialEq, Eq, Structural)]
pub enum System {
    MegaDrive,
    Sega32X,
}

/// What is known of a cartridge.
#[derive(Clone, Copy, Debug)]
pub struct CartridgeInfo {
    pub system: System,
    pub cartridge_type: CartridgeType,
    pub region: Region,
    pub rom_size: usize,
    pub sram_size: usize,
    pub has_eeprom: bool,
    pub eeprom_type: Option<EepromType>,
    pub has_flash: bool,
    pub has_special_chip: bool,
    pub special_chip: Option<ChipType>,
}

} // verus!
