//! Cartridges with flash memory: the command sequences of the flash
//! chip, its identification, and the ROM behind it.

use vstd::prelude::*;
use crate::bits::{bit_of, flag_byte, flag_of, le32, pow2, push_u32, read_u32, u32_at};
use crate::mapper::mapper_common::{BaseMapper, MapperConfig, MapperType, MemoryMap, CART_PAGES};
use crate::mapper::mapper_database::{config_for, get_mapper_config};
use crate::mapper::RomInfo;
use crate::text::{contains_text, occurs_in};

verus! {

/// Sectors whose protection the mapper keeps.
pub const SECTOR_COUNT: usize = 128;

/// Bytes of a snapshot.
pub const SNAPSHOT_BYTES: usize = 27;

/// First word of an unlock sequence.
pub const CMD_UNLOCK_1: u32 = 0xAAAA;

/// Second word of an unlock sequence.
pub const CMD_UNLOCK_2: u32 = 0x5555;

/// Identification mode.
pub const CMD_AUTOSELECT: u32 = 0x9090;

/// Erase set-up.
pub const CMD_ERASE_SETUP: u32 = 0x8080;

/// Sector erase.
pub const CMD_SECTOR_ERASE: u32 = 0x3030;

/// Chip erase.
pub const CMD_CHIP_ERASE: u32 = 0x1010;

/// Back to reading.
pub const CMD_RESET: u32 = 0xF0F0;

#[derive(Clone, Copy, Debug, PartialEq, Eq, Structural)]
pub enum FlashType {
    M29W320EB,
    S29GL064N04,
    UnknownChip,
}

/// The number of a flash chip in a snapshot.
pub open spec fn type_code(t: FlashType) -> u8 {
    match t {
        FlashType::M29W320EB => 0,
        FlashType::S29GL064N04 => 1,
        FlashType::UnknownChip => 2,
    }
}

/// The flash chip with a number in a snapshot.
pub open spec fn type_of_code(code: u8) -> FlashType {
    if code == 0 {
        FlashType::M29W320EB
    } else if code == 1 {
        FlashType::S29GL064N04
    } else {
        FlashType::UnknownChip
    }
}

/// The value of the first `n` of the eight flags from `first` on, the
/// first flag in the lowest bit.
pub open spec fn packed(flags: Seq<bool>, first: int, n: int) -> int
    decreases n,
{
    if n <= 0 {
        0
    } else {
        packed(flags, first, n - 1) + (if flags[first + n - 1] {
            pow2(n - 1)
        } else {
            0
        })
    }
}

/// The flags as sixteen bytes, eight flags to a byte.
pub open spec fn packed_flags(flags: Seq<bool>) -> Seq<u8> {
    Seq::new(16, |i: int| packed(flags, 8 * i, 8) as u8)
}

/// The flags that sixteen bytes from `offset` on hold.
pub open spec fn unpacked_flags(data: Seq<u8>, offset: int) -> Seq<bool> {
    Seq::new(SECTOR_COUNT as nat, |k: int| bit_of(data[offset + k / 8] as u16, k % 8))
}

/// Eight packed flags are a byte.
pub proof fn lemma_packed_bound(flags: Seq<bool>, first: int, n: int)
    requires
        0 <= n <= 8,
    ensures
        0 <= packed(flags, first, n) < pow2(n),
    decreases n,
{
    crate::bits::lemma_pow2_values();
    if n > 0 {
        lemma_packed_bound(flags, first, n - 1);
    }
}

pub struct FlashMapper {
    pub base: BaseMapper,
    pub flash_type: FlashType,
    pub write_enable: bool,
    /// The command sequence so far.
    pub current_command: u32,
    pub sector_protect: [bool; 128],
}

impl FlashMapper {
    /// The command state after a word was written: the unlock sequence
    /// 0xAAAA, 0x5555 opens the way to identification, erase set-up and
    /// reset; an erase set-up takes a chip or sector erase; anything
    /// out of sequence goes back to reading.
    pub open spec fn command_after(command: u32, data: u32) -> u32 {
        if command == CMD_UNLOCK_1 {
            if data == CMD_UNLOCK_2 {
                CMD_UNLOCK_2
            } else {
                command
            }
        } else if command == CMD_UNLOCK_2 {
            if data == CMD_AUTOSELECT {
                CMD_AUTOSELECT
            } else if data == CMD_ERASE_SETUP {
                CMD_ERASE_SETUP
            } else if data == CMD_UNLOCK_1 || data == CMD_RESET {
                0
            } else {
                command
            }
        } else if command == CMD_ERASE_SETUP {
            if data == CMD_CHIP_ERASE {
                0
            } else if data == CMD_SECTOR_ERASE {
                CMD_SECTOR_ERASE
            } else {
                command
            }
        } else {
            0
        }
    }

    /// The write enable after a word was written: a reset inside an
    /// unlock sequence clears it.
    pub open spec fn enable_after(self, data: u32) -> bool {
        if self.current_command == CMD_UNLOCK_2 && data == CMD_RESET {
            false
        } else {
            self.write_enable
        }
    }

    /// The manufacturer and device codes of a flash chip.
    pub open spec fn id_word(self, address: u32) -> u32 {
        if address % 256 == 0 {
            match self.flash_type {
                FlashType::M29W320EB => 0x0020,
                FlashType::S29GL064N04 => 0x0001,
                FlashType::UnknownChip => 0xFFFF,
            }
        } else if address % 256 == 2 {
            match self.flash_type {
                FlashType::M29W320EB => 0x22CB,
                FlashType::S29GL064N04 => 0x227E,
                FlashType::UnknownChip => 0xFFFF,
            }
        } else {
            0xFFFF
        }
    }

    /// The word read at an address: the chip's identification in
    /// identification mode, else the ROM.
    pub open spec fn word_at(&self, address: u32) -> u32 {
        if self.current_command == CMD_AUTOSELECT {
            self.id_word(address)
        } else {
            self.base.rom_word(address)
        }
    }

    /// The flash chip that a product code names.
    pub open spec fn type_for(product: Seq<char>, before: FlashType) -> FlashType {
        if occurs_in(product, "00000000-42"@) {
            FlashType::M29W320EB
        } else if occurs_in(product, "00000000-00"@) {
            FlashType::S29GL064N04
        } else {
            before
        }
    }

    /// The snapshot of the mapper.
    pub open spec fn snapshot(&self) -> Seq<u8> {
        seq![type_code(self.flash_type), flag_of(self.write_enable)] + le32(self.current_command)
            + self.base.snapshot_tail() + packed_flags(self.sector_protect@)
    }

    pub fn new() -> (r: Self)
        ensures
            r.flash_type == FlashType::UnknownChip,
            !r.write_enable,
            r.current_command == 0,
            r.sector_protect@ == Seq::new(SECTOR_COUNT as nat, |i: int| false),
            r.base.rom_data@.len() == 0,
            r.base.current_bank == 0,
    {
        let r = FlashMapper {
            base: BaseMapper::new(),
            flash_type: FlashType::UnknownChip,
            write_enable: false,
            current_command: 0,
            sector_protect: [false; 128],
        };
        assert(r.sector_protect@ =~= Seq::new(SECTOR_COUNT as nat, |i: int| false));
        r
    }

    fn flash_write(&mut self, address: u32, data: u32)
        ensures
            *final(self) == (FlashMapper {
                current_command: Self::command_after(old(self).current_command, data),
                write_enable: old(self).enable_after(data),
                ..*old(self)
            }),
    {
        let command = self.current_command;
        if command == CMD_UNLOCK_1 {
            if data == CMD_UNLOCK_2 {
                self.current_command = CMD_UNLOCK_2;
            }
        } else if command == CMD_UNLOCK_2 {
            if data == CMD_UNLOCK_1 {
                self.current_command = 0;
            } else if data == CMD_AUTOSELECT {
                self.current_command = CMD_AUTOSELECT;
            } else if data == CMD_ERASE_SETUP {
                self.current_command = CMD_ERASE_SETUP;
            } else if data == CMD_RESET {
                self.current_command = 0;
                self.write_enable = false;
            }
        } else if command == CMD_ERASE_SETUP {
            if data == CMD_CHIP_ERASE {
                self.current_command = 0;
            } else if data == CMD_SECTOR_ERASE {
                self.current_command = CMD_SECTOR_ERASE;
            }
        } else {
            self.current_command = 0;
        }
    }

    fn flash_read(&self, address: u32) -> (r: u32)
        ensures
            r == self.word_at(address),
    {
        if self.current_command == CMD_AUTOSELECT {
            let low = address % 256;
            if low == 0x00 {
                match self.flash_type {
                    FlashType::M29W320EB => 0x0020,
                    FlashType::S29GL064N04 => 0x0001,
                    FlashType::UnknownChip => 0xFFFF,
                }
            } else if low == 0x02 {
                match self.flash_type {
                    FlashType::M29W320EB => 0x22CB,
                    FlashType::S29GL064N04 => 0x227E,
                    FlashType::UnknownChip => 0xFFFF,
                }
            } else {
                0xFFFF
            }
        } else {
            let addr: usize = (address & self.base.rom_mask) as usize;
            if addr < self.base.rom_data.len() && addr + 1 < self.base.rom_data.len() {
                (self.base.rom_data[addr] as u32) + (self.base.rom_data[addr + 1] as u32) * 256
            } else {
                0xFFFF
            }
        }
    }

    /// Takes the ROM; the product code tells the flash chip.
    pub fn init(&mut self, rom_info: &RomInfo, rom_data: &[u8], memory_map: &mut MemoryMap)
        ensures
            final(self).base.rom_data@ == rom_data@,
            final(self).base.config == config_for(MapperType::Flash),
            final(self).flash_type == Self::type_for(rom_info.product@, old(self).flash_type),
            final(self).write_enable == old(self).write_enable,
            final(self).current_command == old(self).current_command,
            final(self).sector_protect == old(self).sector_protect,
            final(memory_map).pages@ == final(self).base.remapped(
                |p: int| BaseMapper::linear_target(p),
                old(memory_map).pages@,
                CART_PAGES as int,
            ),
    {
        self.base.setup_rom_mirroring(rom_data);
        self.base.config = get_mapper_config(MapperType::Flash, rom_info);
        if contains_text(rom_info.product.as_str(), "00000000-42") {
            self.flash_type = FlashType::M29W320EB;
        } else if contains_text(rom_info.product.as_str(), "00000000-00") {
            self.flash_type = FlashType::S29GL064N04;
        }
        self.update_mapping(memory_map);
    }

    /// `after` is the mapper after a reset: a soft one changes nothing.
    pub open spec fn resets_to(self, hard_reset: bool, after: Self) -> bool {
        &&& !hard_reset ==> after == self
        &&& hard_reset ==> after == (FlashMapper { write_enable: false, current_command: 0, base: BaseMapper { current_bank: 0, ..self.base }, ..self })
    }

    pub fn reset(&mut self, hard_reset: bool)
        ensures
            old(self).resets_to(hard_reset, *final(self)),
    {
        if hard_reset {
            self.write_enable = false;
            self.current_command = 0;
            self.base.current_bank = 0;
        }
    }

    pub fn mapper_type(&self) -> (r: MapperType)
        ensures
            r == MapperType::Flash,
    {
        MapperType::Flash
    }

    pub fn config(&self) -> (r: &MapperConfig)
        ensures
            *r == self.base.config,
    {
        &self.base.config
    }

    /// `after` and `after_map` are the mapper and the page map after a
    /// write to the time window.
    pub open spec fn time_write_to(self, address: u32, data: u32, before_map: MemoryMap, after: Self, after_map: MemoryMap) -> bool {
        &&& after == self
        &&& after_map == before_map
    }

    pub fn handle_time_write(&mut self, address: u32, data: u32, memory_map: &mut MemoryMap)
        ensures
            old(self).time_write_to(address, data, *old(memory_map), *final(self), *final(memory_map)),
    {
    }

    pub fn handle_time_read(&self, address: u32) -> (r: u32)
        ensures
            r == 0xFFFF,
    {
        0xFFFF
    }

    /// `after` and `after_map` are the mapper and the page map after a
    /// write to the register window.
    pub open spec fn register_write_to(self, address: u32, data: u32, before_map: MemoryMap, after: Self, after_map: MemoryMap) -> bool {
        &&& after == (FlashMapper { current_command: Self::command_after(self.current_command, data), write_enable: self.enable_after(data), ..self })
        &&& after_map == before_map
    }

    /// A write to the flash chip.
    pub fn handle_register_write(&mut self, address: u32, data: u32, memory_map: &mut MemoryMap)
        ensures
            old(self).register_write_to(address, data, *old(memory_map), *final(self), *final(memory_map)),
    {
        self.flash_write(address, data);
    }

    /// A read of the flash chip.
    pub fn handle_register_read(&self, address: u32) -> (r: u32)
        ensures
            r == self.word_at(address),
    {
        self.flash_read(address)
    }

    fn pack(&self, i: usize) -> (r: u8)
        requires
            i < 16,
        ensures
            r == packed(self.sector_protect@, 8 * i, 8),
    {
        let mut byte: u8 = 0;
        let mut j: usize = 0;
        while j < 8
            invariant
                j <= 8,
                i < 16,
                byte == packed(self.sector_protect@, 8 * i, j as int),
            decreases 8 - j,
        {
            proof {
                crate::bits::lemma_pow2_values();
                lemma_packed_bound(self.sector_protect@, 8 * i, j as int);
            }
            if self.sector_protect[i * 8 + j] {
                byte = byte + crate::bits::power_of_two(j as u32) as u8;
            }
            j = j + 1;
        }
        byte
    }

    pub fn save_state(&self) -> (state: Vec<u8>)
        ensures
            state@ == self.snapshot(),
            state@.len() == SNAPSHOT_BYTES,
    {
        let mut state: Vec<u8> = Vec::new();
        state.push(
            match self.flash_type {
                FlashType::M29W320EB => 0,
                FlashType::S29GL064N04 => 1,
                FlashType::UnknownChip => 2,
            },
        );
        state.push(flag_byte(self.write_enable));
        assert(state@ =~= seq![type_code(self.flash_type), flag_of(self.write_enable)]);
        push_u32(&mut state, self.current_command);
        self.base.save_tail(&mut state);
        let ghost head = state@;
        let mut i: usize = 0;
        while i < 16
            invariant
                i <= 16,
                state@.len() == head.len() + i,
                forall|k: int| 0 <= k < head.len() ==> state@[k] == head[k],
                forall|k: int| 0 <= k < i ==> state@[head.len() + k] == packed_flags(self.sector_protect@)[k],
            decreases 16 - i,
        {
            state.push(self.pack(i));
            i = i + 1;
        }
        assert(state@ =~= head + packed_flags(self.sector_protect@));
        state
    }

    /// `after` is the mapper after a snapshot was loaded, and `ok` whether
    /// it was taken: one that is too short is refused and changes nothing.
    pub open spec fn loads_to(self, data: Seq<u8>, ok: bool, after: Self) -> bool {
        &&& ok == (data.len() >= SNAPSHOT_BYTES)
        &&& !ok ==> after == self
        &&& ok ==> after.flash_type == type_of_code(data[0]) && after.write_enable == (data[1] != 0) && after.current_command == u32_at(data, 2) && after.base.current_bank == data[6] && after.base.regs@ == data.subrange(7, 11) && after.sector_protect@ == unpacked_flags(data, 11) && after.base.rom_data == self.base.rom_data && after.base.rom_mask == self.base.rom_mask && after.base.config == self.base.config
    }

    /// Loads a snapshot; one shorter than a snapshot is refused.
    pub fn load_state(&mut self, data: &[u8]) -> (ok: bool)
        ensures
            old(self).loads_to(data@, ok, *final(self)),
    {
        if data.len() < SNAPSHOT_BYTES {
            return false;
        }
        self.flash_type = if data[0] == 0 {
            FlashType::M29W320EB
        } else if data[0] == 1 {
            FlashType::S29GL064N04
        } else {
            FlashType::UnknownChip
        };
        self.write_enable = data[1] != 0;
        self.current_command = read_u32(data, 2);
        self.base.load_tail(data, 6);
        let mut k: usize = 0;
        while k < SECTOR_COUNT
            invariant
                k <= SECTOR_COUNT,
                data@.len() >= SNAPSHOT_BYTES,
                self.flash_type == type_of_code(data@[0]),
                self.write_enable == (data@[1] != 0),
                self.current_command == u32_at(data@, 2),
                self.base.current_bank == data@[6],
                self.base.regs@ == data@.subrange(7, 11),
                self.base.rom_data == old(self).base.rom_data,
                self.base.rom_mask == old(self).base.rom_mask,
                self.base.config == old(self).base.config,
                forall|q: int| 0 <= q < k ==> self.sector_protect[q] == bit_of(data@[11 + q / 8] as u16, q % 8),
            decreases SECTOR_COUNT - k,
        {
            self.sector_protect[k] = crate::bits::bit_at(data[11 + k / 8] as u16, (k % 8) as u32);
            k = k + 1;
        }
        assert(self.sector_protect@ =~= unpacked_flags(data@, 11));
        true
    }

    pub fn update_mapping(&self, memory_map: &mut MemoryMap)
        ensures
            final(memory_map).pages@ == self.base.remapped(
                |p: int| BaseMapper::linear_target(p),
                old(memory_map).pages@,
                CART_PAGES as int,
            ),
    {
        self.base.map_linear(memory_map);
    }
}

} // verus!
