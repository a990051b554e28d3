//! Serial EEPROMs that cartridges use for saves: Microwire 93C46, SPI
//! (25xxx and 95xxx) and I2C (24Cxx).

use vstd::prelude::*;
use vstd::string::StringExecFns;
use crate::eeprom::eeprom_93c::Eeprom93C;
use crate::eeprom::eeprom_i2c::{type_of, EepromI2C, EepromI2CType, I2CState};
use crate::eeprom::eeprom_spi::EepromSPI;
use crate::text::{contains_text, occurs_in};

pub mod eeprom_93c;
pub mod eeprom_i2c;
pub mod eeprom_spi;

verus! {

/// Games in the table of I2C EEPROMs.
pub const I2C_GAMES: usize = 26;

/// Games known to carry a Microwire 93C46.
pub const MICROWIRE_GAMES: usize = 5;

/// Games known to carry an SPI EEPROM.
pub const SPI_GAMES: usize = 2;

/// Offset of the byte of a ROM header that names an SPI EEPROM.
pub const SPI_MARK_OFFSET: usize = 0x1B2;

/// The byte of a ROM header that names an SPI EEPROM.
pub const SPI_MARK: u8 = 0xE8;

/// Which serial memory a cartridge carries.
#[derive(Clone, Copy, Debug, PartialEq, Eq, Structural)]
pub enum EepromType {
    /// No EEPROM.
    NoEeprom,
    /// Microwire 93C46.
    Microwire93C46,
    /// SPI, 25xxx or 95xxx.
    Spi,
    /// I2C, 24Cxx.
    I2C(EepromI2CType),
}

/// The name of an I2C model.
pub open spec fn model_name(t: EepromI2CType) -> Seq<char> {
    match t {
        EepromI2CType::X24C01 => "X24C01"@,
        EepromI2CType::X24C02 => "X24C02"@,
        EepromI2CType::C24C01 => "C24C01"@,
        EepromI2CType::C24C02 => "C24C02"@,
        EepromI2CType::C24C04 => "C24C04"@,
        EepromI2CType::C24C08 => "C24C08"@,
        EepromI2CType::C24C16 => "C24C16"@,
        EepromI2CType::C24C32 => "C24C32"@,
        EepromI2CType::C24C64 => "C24C64"@,
        EepromI2CType::C24C65 => "C24C65"@,
        EepromI2CType::C24C128 => "C24C128"@,
        EepromI2CType::C24C256 => "C24C256"@,
        EepromI2CType::C24C512 => "C24C512"@,
    }
}

/// The name of an I2C model, as text.
pub fn model_label(t: EepromI2CType) -> (r: &'static str)
    ensures
        r@ == model_name(t),
{
    match t {
        EepromI2CType::X24C01 => "X24C01",
        EepromI2CType::X24C02 => "X24C02",
        EepromI2CType::C24C01 => "C24C01",
        EepromI2CType::C24C02 => "C24C02",
        EepromI2CType::C24C04 => "C24C04",
        EepromI2CType::C24C08 => "C24C08",
        EepromI2CType::C24C16 => "C24C16",
        EepromI2CType::C24C32 => "C24C32",
        EepromI2CType::C24C64 => "C24C64",
        EepromI2CType::C24C65 => "C24C65",
        EepromI2CType::C24C128 => "C24C128",
        EepromI2CType::C24C256 => "C24C256",
        EepromI2CType::C24C512 => "C24C512",
    }
}

/// Puts a model name between "I2C EEPROM (" and ")".
fn format_i2c(name: &str) -> (r: String)
    ensures
        r@ == "I2C EEPROM ("@ + name@ + ")"@,
{
    let mut r = "I2C EEPROM (".to_owned();
    r.append(name);
    r.append(")");
    r
}

impl EepromType {
    /// The name of the type.
    pub open spec fn label(self) -> Seq<char> {
        match self {
            EepromType::NoEeprom => "None"@,
            EepromType::Microwire93C46 => "Microwire 93C46"@,
            EepromType::Spi => "SPI EEPROM"@,
            EepromType::I2C(t) => "I2C EEPROM ("@ + model_name(t) + ")"@,
        }
    }

    pub fn to_string(&self) -> (r: String)
        ensures
            r@ == self.label(),
    {
        match self {
            EepromType::NoEeprom => "None".to_owned(),
            EepromType::Microwire93C46 => "Microwire 93C46".to_owned(),
            EepromType::Spi => "SPI EEPROM".to_owned(),
            EepromType::I2C(t) => format_i2c(model_label(*t)),
        }
    }
}

/// A serial memory: the closed set of the kinds that this library
/// knows, and the empty socket.
pub enum Eeprom {
    Microwire(Eeprom93C),
    Spi(EepromSPI),
    I2C(EepromI2C),
    /// No EEPROM present.
    Null,
}

impl Eeprom {
    /// The memory's own invariant.
    pub open spec fn wf(&self) -> bool {
        match self {
            Eeprom::Microwire(e) => e.valid(),
            Eeprom::Spi(e) => e.valid(),
            Eeprom::I2C(e) => e.wf(),
            Eeprom::Null => true,
        }
    }

    /// The type of the memory.
    pub open spec fn kind(&self) -> EepromType {
        match self {
            Eeprom::Microwire(_) => EepromType::Microwire93C46,
            Eeprom::Spi(_) => EepromType::Spi,
            Eeprom::I2C(e) => EepromType::I2C(type_of(e@.spec)),
            Eeprom::Null => EepromType::NoEeprom,
        }
    }

    /// Puts the memory into its initial state and takes the backup
    /// memory into use; the empty socket leaves it alone.
    pub fn init(&mut self, sram: &mut BackupRam)
        requires
            old(self).wf(),
        ensures
            final(self).wf(),
            final(self).kind() == old(self).kind(),
            match *old(self) {
                Eeprom::Microwire(_) => *final(self) == Eeprom::Microwire(
                    Eeprom93C { enabled: true, ..Eeprom93C::initial() },
                ) && *final(sram) == (BackupRam { custom: 3, on: true, ..*old(sram) }),
                Eeprom::Spi(_) => *final(self) == Eeprom::Spi(EepromSPI::initial()) && *final(sram) == (BackupRam {
                    custom: 2,
                    on: true,
                    ..*old(sram)
                }),
                Eeprom::I2C(e) => (*final(self) matches Eeprom::I2C(f) && f@ == (I2CState {
                    spec: e@.spec,
                    scl_in_bit: e@.scl_in_bit,
                    sda_in_bit: e@.sda_in_bit,
                    sda_out_bit: e@.sda_out_bit,
                    ..I2CState::initial(EepromI2CType::X24C01)
                })) && *final(sram) == (BackupRam { custom: 1, on: true, ..*old(sram) }),
                Eeprom::Null => *final(self) is Null && *final(sram) == *old(sram),
            },
    {
        match self {
            Eeprom::Microwire(e) => e.init(sram),
            Eeprom::Spi(e) => e.init(sram),
            Eeprom::I2C(e) => e.init(sram),
            Eeprom::Null => {},
        }
    }

    /// Takes a control byte.
    pub fn write(&mut self, data: u8, sram: &mut BackupRam)
        requires
            old(self).wf(),
        ensures
            final(self).wf(),
            final(self).kind() == old(self).kind(),
            final(sram).on == old(sram).on,
            final(sram).custom == old(sram).custom,
            *old(self) matches Eeprom::Microwire(e) ==> *final(self) matches Eeprom::Microwire(f) && (
            f, final(sram).sram@) == e.written(data, old(sram).sram@),
            *old(self) matches Eeprom::Spi(e) ==> *final(self) matches Eeprom::Spi(f) && (f, final(sram).sram@)
                == e.written(data, old(sram).sram@),
            *old(self) matches Eeprom::I2C(e) ==> *final(self) matches Eeprom::I2C(f) && (f@, final(sram).sram@)
                == e@.updated((data >> e@.sda_in_bit) & 1, (data >> e@.scl_in_bit) & 1, old(sram).sram@),
            *old(self) is Null ==> *final(self) is Null && final(sram).sram == old(sram).sram,
    {
        match self {
            Eeprom::Microwire(e) => e.write(data, sram),
            Eeprom::Spi(e) => e.write(data, sram),
            Eeprom::I2C(e) => e.write_lines(data, sram),
            Eeprom::Null => {},
        }
    }

    /// Reads the lines that the memory drives. The empty socket reads
    /// as 0.
    pub fn read(&self, sram: &BackupRam) -> (r: u32)
        requires
            self.wf(),
        ensures
            self matches Eeprom::Microwire(e) ==> r == e.line_byte(),
            self matches Eeprom::Spi(e) ==> r == e.out,
            self matches Eeprom::I2C(e) ==> r == e@.line_out(sram.sram@),
            self is Null ==> r == 0,
    {
        match self {
            Eeprom::Microwire(e) => e.read() as u32,
            Eeprom::Spi(e) => e.read(0),
            Eeprom::I2C(e) => e.read(sram) as u32,
            Eeprom::Null => 0,
        }
    }

    /// Puts the memory back into the state after power-on.
    pub fn reset(&mut self)
        ensures
            final(self).wf(),
            final(self).kind() == old(self).kind(),
            *old(self) is Microwire ==> (*final(self) matches Eeprom::Microwire(f) && f == Eeprom93C::initial()),
            *old(self) is Spi ==> (*final(self) matches Eeprom::Spi(f) && f == EepromSPI::initial()),
            *old(self) matches Eeprom::I2C(e) ==> *final(self) matches Eeprom::I2C(f) && f@ == I2CState::initial(
                type_of(e@.spec),
            ),
    {
        match self {
            Eeprom::Microwire(e) => e.reset(),
            Eeprom::Spi(e) => e.reset(),
            Eeprom::I2C(e) => {
                e.reset();
                proof {
                    lemma_type_of_spec(type_of(old(self)->I2C_0@.spec));
                }
            },
            Eeprom::Null => {},
        }
    }

    pub fn eeprom_type(&self) -> (t: EepromType)
        ensures
            t == self.kind(),
    {
        match self {
            Eeprom::Microwire(_) => EepromType::Microwire93C46,
            Eeprom::Spi(_) => EepromType::Spi,
            Eeprom::I2C(e) => EepromType::I2C(e.spec_from_type()),
            Eeprom::Null => EepromType::NoEeprom,
        }
    }

    /// The snapshot of the memory; of the empty socket, no bytes.
    pub fn save_state(&self) -> (state: Vec<u8>)
        ensures
            self matches Eeprom::Microwire(e) ==> state@ == e.snapshot(),
            self matches Eeprom::Spi(e) ==> state@ == e.snapshot(),
            self matches Eeprom::I2C(e) ==> state@ == e@.snapshot(),
            self is Null ==> state@.len() == 0,
    {
        match self {
            Eeprom::Microwire(e) => e.save_state(),
            Eeprom::Spi(e) => e.save_state(),
            Eeprom::I2C(e) => e.save_state(),
            Eeprom::Null => Vec::new(),
        }
    }

    /// Loads a snapshot. The empty socket takes any.
    pub fn load_state(&mut self, data: &[u8]) -> (ok: bool)
        requires
            old(self).wf(),
        ensures
            final(self).wf(),
            !ok ==> *final(self) is Null == *old(self) is Null && final(self).kind() == old(self).kind(),
            *old(self) matches Eeprom::Microwire(e) ==> ok == Eeprom93C::parsed(data@) is Some && (ok ==> *final(self) == Eeprom::Microwire(Eeprom93C::parsed(data@)->0)),
            *old(self) matches Eeprom::Spi(e) ==> ok == EepromSPI::parsed(data@) is Some && (ok ==> *final(self)
                == Eeprom::Spi(EepromSPI::parsed(data@)->0)),
            *old(self) matches Eeprom::I2C(e) ==> ok == I2CState::parsed(data@) is Some && (ok ==> (*final(self) matches Eeprom::I2C(f) && f@ == I2CState::parsed(data@)->0)),
            *old(self) is Null ==> ok && *final(self) is Null,
    {
        match self {
            Eeprom::Microwire(e) => e.load_state(data),
            Eeprom::Spi(e) => e.load_state(data),
            Eeprom::I2C(e) => e.load_state(data),
            Eeprom::Null => true,
        }
    }
}

/// The model of a model's characteristics is the model.
pub proof fn lemma_type_of_spec(t: EepromI2CType)
    ensures
        type_of(crate::eeprom::eeprom_i2c::spec_of(t)) == t,
{
}

/// Makes the memory of a type.
pub fn create_eeprom(eeprom_type: EepromType) -> (r: Eeprom)
    ensures
        r.wf(),
        r.kind() == eeprom_type,
        eeprom_type == EepromType::Microwire93C46 ==> r == Eeprom::Microwire(Eeprom93C::initial()),
        eeprom_type == EepromType::Spi ==> r == Eeprom::Spi(EepromSPI::initial()),
        eeprom_type matches EepromType::I2C(t) ==> r matches Eeprom::I2C(e) && e@ == I2CState::initial(t),
        eeprom_type == EepromType::NoEeprom ==> r is Null,
{
    match eeprom_type {
        EepromType::Microwire93C46 => Eeprom::Microwire(Eeprom93C::new()),
        EepromType::Spi => Eeprom::Spi(EepromSPI::new()),
        EepromType::I2C(t) => {
            proof {
                lemma_type_of_spec(t);
            }
            Eeprom::I2C(EepromI2C::new(t))
        },
        EepromType::NoEeprom => Eeprom::Null,
    }
}

/// The product code of entry `k` of the table of I2C games.
pub open spec fn i2c_game_id(k: int) -> Seq<char> {
    if k == 0 {
        "T-50176"@
    } else if k == 1 {
        "T-50396"@
    } else if k == 2 {
        "T-50446"@
    } else if k == 3 {
        "T-50516"@
    } else if k == 4 {
        "T-50606"@
    } else if k == 5 {
        "T-12046"@
    } else if k == 6 {
        "T-12053"@
    } else if k == 7 {
        "MK-1215"@
    } else if k == 8 {
        "MK-1228"@
    } else if k == 9 {
        "G-5538"@
    } else if k == 10 {
        "PR-1993"@
    } else if k == 11 {
        "G-4060"@
    } else if k == 12 {
        "00001211"@
    } else if k == 13 {
        "00004076"@
    } else if k == 14 {
        "G-4524"@
    } else if k == 15 {
        "00054503"@
    } else if k == 16 {
        "T-81033"@
    } else if k == 17 {
        "T-081326"@
    } else if k == 18 {
        "T-081276"@
    } else if k == 19 {
        "T-81406"@
    } else if k == 20 {
        "T-081586"@
    } else if k == 21 {
        "T-81476"@
    } else if k == 22 {
        "T-81576"@
    } else if k == 23 {
        "T-120106"@
    } else if k == 24 {
        "T-120096"@
    } else {
        "T-120146"@
    }
}

/// The model that entry `k` of the table of I2C games carries.
pub open spec fn i2c_game_type(k: int) -> EepromI2CType {
    if k == 0 {
        EepromI2CType::X24C01
    } else if k == 1 {
        EepromI2CType::X24C01
    } else if k == 2 {
        EepromI2CType::X24C01
    } else if k == 3 {
        EepromI2CType::X24C01
    } else if k == 4 {
        EepromI2CType::X24C01
    } else if k == 5 {
        EepromI2CType::X24C01
    } else if k == 6 {
        EepromI2CType::X24C01
    } else if k == 7 {
        EepromI2CType::X24C01
    } else if k == 8 {
        EepromI2CType::X24C01
    } else if k == 9 {
        EepromI2CType::X24C01
    } else if k == 10 {
        EepromI2CType::X24C01
    } else if k == 11 {
        EepromI2CType::X24C01
    } else if k == 12 {
        EepromI2CType::X24C01
    } else if k == 13 {
        EepromI2CType::X24C01
    } else if k == 14 {
        EepromI2CType::X24C01
    } else if k == 15 {
        EepromI2CType::X24C01
    } else if k == 16 {
        EepromI2CType::X24C02
    } else if k == 17 {
        EepromI2CType::X24C02
    } else if k == 18 {
        EepromI2CType::C24C02
    } else if k == 19 {
        EepromI2CType::C24C04
    } else if k == 20 {
        EepromI2CType::C24C16
    } else if k == 21 {
        EepromI2CType::C24C65
    } else if k == 22 {
        EepromI2CType::C24C65
    } else if k == 23 {
        EepromI2CType::C24C08
    } else if k == 24 {
        EepromI2CType::C24C16
    } else {
        EepromI2CType::C24C65
    }
}

/// The product code of entry `k` of the list of Microwire games.
pub open spec fn microwire_game_id(k: int) -> Seq<char> {
    if k == 0 {
        "T-081586"@
    } else if k == 1 {
        "T-081276"@
    } else if k == 2 {
        "T-81406"@
    } else if k == 3 {
        "T-81476"@
    } else {
        "T-81576"@
    }
}

/// The product code of entry `k` of the list of SPI games.
pub open spec fn spi_game_id(k: int) -> Seq<char> {
    if k == 0 {
        "T-12053"@
    } else {
        "T-12046"@
    }
}

/// Entry `k` of the table of I2C games: product code, a pattern that the ROM must start with (0 for none), a checksum that the ROM must have (0 for any), and the model.
pub fn i2c_game(k: usize) -> (r: (&'static str, u32, u16, EepromI2CType))
    requires
        k < I2C_GAMES,
    ensures
        r.0@ == i2c_game_id(k as int),
        r.1 == 0,
        r.2 == 0,
        r.3 == i2c_game_type(k as int),
{
    if k == 0 {
        ("T-50176", 0, 0, EepromI2CType::X24C01)
    } else if k == 1 {
        ("T-50396", 0, 0, EepromI2CType::X24C01)
    } else if k == 2 {
        ("T-50446", 0, 0, EepromI2CType::X24C01)
    } else if k == 3 {
        ("T-50516", 0, 0, EepromI2CType::X24C01)
    } else if k == 4 {
        ("T-50606", 0, 0, EepromI2CType::X24C01)
    } else if k == 5 {
        ("T-12046", 0, 0, EepromI2CType::X24C01)
    } else if k == 6 {
        ("T-12053", 0, 0, EepromI2CType::X24C01)
    } else if k == 7 {
        ("MK-1215", 0, 0, EepromI2CType::X24C01)
    } else if k == 8 {
        ("MK-1228", 0, 0, EepromI2CType::X24C01)
    } else if k == 9 {
        ("G-5538", 0, 0, EepromI2CType::X24C01)
    } else if k == 10 {
        ("PR-1993", 0, 0, EepromI2CType::X24C01)
    } else if k == 11 {
        ("G-4060", 0, 0, EepromI2CType::X24C01)
    } else if k == 12 {
        ("00001211", 0, 0, EepromI2CType::X24C01)
    } else if k == 13 {
        ("00004076", 0, 0, EepromI2CType::X24C01)
    } else if k == 14 {
        ("G-4524", 0, 0, EepromI2CType::X24C01)
    } else if k == 15 {
        ("00054503", 0, 0, EepromI2CType::X24C01)
    } else if k == 16 {
        ("T-81033", 0, 0, EepromI2CType::X24C02)
    } else if k == 17 {
        ("T-081326", 0, 0, EepromI2CType::X24C02)
    } else if k == 18 {
        ("T-081276", 0, 0, EepromI2CType::C24C02)
    } else if k == 19 {
        ("T-81406", 0, 0, EepromI2CType::C24C04)
    } else if k == 20 {
        ("T-081586", 0, 0, EepromI2CType::C24C16)
    } else if k == 21 {
        ("T-81476", 0, 0, EepromI2CType::C24C65)
    } else if k == 22 {
        ("T-81576", 0, 0, EepromI2CType::C24C65)
    } else if k == 23 {
        ("T-120106", 0, 0, EepromI2CType::C24C08)
    } else if k == 24 {
        ("T-120096", 0, 0, EepromI2CType::C24C16)
    } else {
        ("T-120146", 0, 0, EepromI2CType::C24C65)
    }
}

/// Entry `k` of the list of Microwire games.
pub fn microwire_game(k: usize) -> (r: &'static str)
    requires
        k < MICROWIRE_GAMES,
    ensures
        r@ == microwire_game_id(k as int),
{
    if k == 0 {
        "T-081586"
    } else if k == 1 {
        "T-081276"
    } else if k == 2 {
        "T-81406"
    } else if k == 3 {
        "T-81476"
    } else {
        "T-81576"
    }
}

/// Entry `k` of the list of SPI games.
pub fn spi_game(k: usize) -> (r: &'static str)
    requires
        k < SPI_GAMES,
    ensures
        r@ == spi_game_id(k as int),
{
    if k == 0 {
        "T-12053"
    } else {
        "T-12046"
    }
}

/// The first entry at or after `from` of the table of I2C games whose
/// product code occurs in `code`, or the size of the table.
pub open spec fn first_i2c_game(code: Seq<char>, from: int) -> int
    decreases I2C_GAMES - from,
{
    if from >= I2C_GAMES {
        I2C_GAMES as int
    } else if occurs_in(code, i2c_game_id(from)) {
        from
    } else {
        first_i2c_game(code, from + 1)
    }
}

/// Some entry before `n` of the list of Microwire games occurs in
/// `code`.
pub open spec fn is_microwire_game(code: Seq<char>, n: int) -> bool
    decreases n,
{
    if n <= 0 {
        false
    } else {
        is_microwire_game(code, n - 1) || occurs_in(code, microwire_game_id(n - 1))
    }
}

/// Some entry before `n` of the list of SPI games occurs in `code`.
pub open spec fn is_listed_spi_game(code: Seq<char>, n: int) -> bool
    decreases n,
{
    if n <= 0 {
        false
    } else {
        is_listed_spi_game(code, n - 1) || occurs_in(code, spi_game_id(n - 1))
    }
}

/// The ROM header names an SPI EEPROM, or the game is on the list.
pub open spec fn is_spi_game(rom: Seq<u8>, code: Seq<char>) -> bool {
    (rom.len() > SPI_MARK_OFFSET && rom[SPI_MARK_OFFSET as int] == SPI_MARK) || is_listed_spi_game(
        code,
        SPI_GAMES as int,
    )
}

/// The ROM starts with `pattern`, little-endian.
pub open spec fn starts_with_pattern(rom: Seq<u8>, pattern: u32) -> bool {
    rom.len() >= 4 && crate::bits::u32_at(rom, 0) == pattern
}

/// The serial memory of a game, from its ROM and its product code: a
/// Microwire 93C46 or an SPI EEPROM if the game is known for one, else
/// the model that the table of I2C games gives it, else none.
pub open spec fn eeprom_for(rom: Seq<u8>, code: Seq<char>) -> EepromType {
    if is_microwire_game(code, MICROWIRE_GAMES as int) {
        EepromType::Microwire93C46
    } else if is_spi_game(rom, code) {
        EepromType::Spi
    } else if first_i2c_game(code, 0) < I2C_GAMES {
        EepromType::I2C(i2c_game_type(first_i2c_game(code, 0)))
    } else {
        EepromType::NoEeprom
    }
}

/// Tells the serial memory of a game from its ROM header, its product
/// code and its checksum.
pub fn detect_eeprom_type(rom_data: &[u8], product_code: &str, checksum: u16) -> (r: EepromType)
    ensures
        r == eeprom_for(rom_data@, product_code@),
{
    if detect_93c46_game(product_code) {
        return EepromType::Microwire93C46;
    }
    if detect_spi_game(rom_data, product_code) {
        return EepromType::Spi;
    }
    match detect_i2c_game(product_code, checksum, rom_data) {
        Some(i2c_type) => EepromType::I2C(i2c_type),
        None => EepromType::NoEeprom,
    }
}

fn detect_93c46_game(product_code: &str) -> (r: bool)
    ensures
        r == is_microwire_game(product_code@, MICROWIRE_GAMES as int),
{
    let mut k: usize = 0;
    while k < MICROWIRE_GAMES
        invariant
            k <= MICROWIRE_GAMES,
            !is_microwire_game(product_code@, k as int),
        decreases MICROWIRE_GAMES - k,
    {
        if contains_text(product_code, microwire_game(k)) {
            proof {
                lemma_microwire_found(product_code@, k as int, MICROWIRE_GAMES as int);
            }
            return true;
        }
        k = k + 1;
    }
    false
}

/// A game found in the list stays found however far the list is read.
proof fn lemma_microwire_found(code: Seq<char>, k: int, n: int)
    requires
        0 <= k < n,
        occurs_in(code, microwire_game_id(k)),
    ensures
        is_microwire_game(code, n),
    decreases n,
{
    if n - 1 > k {
        lemma_microwire_found(code, k, n - 1);
    }
}

/// A game found in the list stays found however far the list is read.
proof fn lemma_spi_found(code: Seq<char>, k: int, n: int)
    requires
        0 <= k < n,
        occurs_in(code, spi_game_id(k)),
    ensures
        is_listed_spi_game(code, n),
    decreases n,
{
    if n - 1 > k {
        lemma_spi_found(code, k, n - 1);
    }
}

fn detect_spi_game(rom_data: &[u8], product_code: &str) -> (r: bool)
    ensures
        r == is_spi_game(rom_data@, product_code@),
{
    if rom_data.len() > SPI_MARK_OFFSET {
        if rom_data[SPI_MARK_OFFSET] == SPI_MARK {
            return true;
        }
    }
    let mut k: usize = 0;
    while k < SPI_GAMES
        invariant
            k <= SPI_GAMES,
            !is_listed_spi_game(product_code@, k as int),
        decreases SPI_GAMES - k,
    {
        if contains_text(product_code, spi_game(k)) {
            proof {
                lemma_spi_found(product_code@, k as int, SPI_GAMES as int);
            }
            return true;
        }
        k = k + 1;
    }
    false
}

fn detect_i2c_game(product_code: &str, checksum: u16, rom_data: &[u8]) -> (r: Option<EepromI2CType>)
    ensures
        r == (if first_i2c_game(product_code@, 0) < I2C_GAMES {
            Some(i2c_game_type(first_i2c_game(product_code@, 0)))
        } else {
            None
        }),
{
    let mut k: usize = 0;
    while k < I2C_GAMES
        invariant
            k <= I2C_GAMES,
            first_i2c_game(product_code@, 0) == first_i2c_game(product_code@, k as int),
        decreases I2C_GAMES - k,
    {
        let (id, sp, chk, eeprom_type) = i2c_game(k);
        if contains_text(product_code, id) {
            if chk == 0 || chk == checksum {
                if sp == 0 || check_special_pattern(rom_data, sp) {
                    return Some(eeprom_type);
                }
            }
        }
        k = k + 1;
    }
    None
}

fn check_special_pattern(rom_data: &[u8], pattern: u32) -> (r: bool)
    ensures
        r == starts_with_pattern(rom_data@, pattern),
{
    if rom_data.len() >= 4 {
        crate::bits::read_u32(rom_data, 0) == pattern
    } else {
        false
    }
}

/// The backup memory that an EEPROM keeps its bytes in.
pub struct BackupRam {
    /// The memory is in use.
    pub on: bool,
    /// Which kind of serial memory drives it: 1 for I2C, 2 for SPI, 3
    /// for Microwire, 0 for plain save memory.
    pub custom: u8,
    /// First address of the memory on the bus.
    pub start: u32,
    pub sram: Vec<u8>,
}

impl BackupRam {
    /// A backup memory of `size` bytes, all 0xFF, not in use.
    pub fn new(size: usize) -> (r: Self)
        ensures
            !r.on,
            r.custom == 0,
            r.start == 0,
            r.sram@ == Seq::new(size as nat, |i: int| 0xFFu8),
    {
        let sram: Vec<u8> = vec![0xFFu8; size];
        assert(sram@ =~= Seq::new(size as nat, |i: int| 0xFFu8));
        BackupRam { on: false, custom: 0, start: 0, sram }
    }
}

/// The word stored little-endian at `addr`, where the memory holds it.
pub open spec fn stored_word(sram: Seq<u8>, addr: int) -> Option<u16> {
    if 0 <= addr && addr + 1 < sram.len() {
        Some(crate::bits::word_of(sram[addr], sram[addr + 1]))
    } else {
        None
    }
}

/// The memory with a word stored little-endian at `addr`; a word that
/// does not fit is not stored.
pub open spec fn with_word(sram: Seq<u8>, addr: int, word: u16) -> Seq<u8> {
    if 0 <= addr && addr + 1 < sram.len() {
        sram.update(addr, crate::bits::lo_byte(word)).update(addr + 1, crate::bits::hi_byte(word))
    } else {
        sram
    }
}

/// The memory with a byte stored at `addr`; past the end nothing is
/// stored.
pub open spec fn with_byte(sram: Seq<u8>, addr: int, byte: u8) -> Seq<u8> {
    if 0 <= addr < sram.len() {
        sram.update(addr, byte)
    } else {
        sram
    }
}

} // verus!
