//! Cartridge hardware for a Mega Drive emulator: the SVP co-processor and
//! the enhancement chips, mappers and serial memories that sit beside it.

pub mod bits;
pub mod crc32;
pub mod chips;
pub mod eeprom;
pub mod mapper;
pub mod memory;
pub mod svp;
pub mod system;
pub mod text;
