//! The Game Genie: a register file that decodes up to six ROM patches,
//! and its lock ROM in front of the cartridge.

use vstd::prelude::*;
use crate::bits::{
    bit_at, bit_of, dwords_at, dwords_le, flag_byte, flag_of, hi_byte, high_byte, lo_byte, low_byte, make_word,
    push_dwords, push_words, read_u16, read_u32, u16_at, u32_at, with_high_byte, with_low_byte, word_of, words_at,
    words_le,
};
use crate::chips::ChipType;
use crate::memory::cart::Cartridge;

verus! {

/// Registers of the chip.
pub const REG_COUNT: usize = 0x20;

/// Patches that the chip holds.
pub const PATCH_COUNT: usize = 6;

/// Bytes of the lock ROM image.
pub const LOCK_ROM_SIZE: usize = 0x8000;

/// Bytes of a snapshot.
pub const SNAPSHOT_BYTES: usize = 5 + 2 * 0x20 + 2 * 6 + 4 * 6 + 2 * 6;

#[derive(Clone, Debug)]
pub struct GameGenie {
    pub enabled: bool,
    pub regs: [u16; 0x20],
    /// The ROM words that the patches replace.
    pub old_values: [u16; 6],
    pub patch_data: [u16; 6],
    /// ROM offsets of the patches.
    pub patch_addrs: [u32; 6],
    /// The lock ROM, byte-swapped and mirrored to 64 KiB.
    pub lockrom: Vec<u8>,
    pub patches_enabled: bool,
    /// MODE, bit 10 of the mode register.
    pub mode_bit: bool,
    /// READ_ENABLE, bit 9.
    pub read_enable_bit: bool,
    /// LOCK, bit 8.
    pub lock_bit: bool,
}

/// The chip as contracts see it.
pub struct GenieState {
    pub enabled: bool,
    pub regs: Seq<u16>,
    pub old_values: Seq<u16>,
    pub patch_data: Seq<u16>,
    pub patch_addrs: Seq<u32>,
    pub lockrom: Seq<u8>,
    pub patches_enabled: bool,
    pub mode_bit: bool,
    pub read_enable_bit: bool,
    pub lock_bit: bool,
}

impl View for GameGenie {
    type V = GenieState;

    open spec fn view(&self) -> GenieState {
        GenieState {
            enabled: self.enabled,
            regs: self.regs@,
            old_values: self.old_values@,
            patch_data: self.patch_data@,
            patch_addrs: self.patch_addrs@,
            lockrom: self.lockrom@,
            patches_enabled: self.patches_enabled,
            mode_bit: self.mode_bit,
            read_enable_bit: self.read_enable_bit,
            lock_bit: self.lock_bit,
        }
    }
}

/// The register that an address selects.
pub open spec fn reg_of(address: u32) -> int {
    ((address / 2) % 0x20) as int
}

/// The address of patch `k` as the registers hold it: six bits in one
/// register above sixteen in the next.
pub open spec fn patch_addr_of(regs: Seq<u16>, k: int) -> u32 {
    ((regs[2 + 3 * k] % 64) * 0x1_0000 + regs[3 + 3 * k]) as u32
}

/// The data of patch `k` as the registers hold it.
pub open spec fn patch_data_of(regs: Seq<u16>, k: int) -> u16 {
    regs[4 + 3 * k]
}

/// The lock ROM as the chip keeps an image: each pair of bytes swapped,
/// and the 32 KiB repeated once.
pub open spec fn lock_rom_of(image: Seq<u8>) -> Seq<u8> {
    Seq::new(
        2 * LOCK_ROM_SIZE as nat,
        |i: int|
            if (i % (LOCK_ROM_SIZE as int)) % 2 == 0 {
                image[i % (LOCK_ROM_SIZE as int) + 1]
            } else {
                image[i % (LOCK_ROM_SIZE as int) - 1]
            },
    )
}

impl GenieState {
    /// A chip without its ROM: disabled, every register zero.
    pub open spec fn initial() -> GenieState {
        GenieState {
            enabled: false,
            regs: Seq::new(REG_COUNT as nat, |i: int| 0u16),
            old_values: Seq::new(PATCH_COUNT as nat, |i: int| 0u16),
            patch_data: Seq::new(PATCH_COUNT as nat, |i: int| 0u16),
            patch_addrs: Seq::new(PATCH_COUNT as nat, |i: int| 0u32),
            lockrom: Seq::empty(),
            patches_enabled: false,
            mode_bit: false,
            read_enable_bit: false,
            lock_bit: false,
        }
    }

    /// Patch `i` is switched on, at an address.
    pub open spec fn patch_hits(self, i: int, address: u32) -> bool {
        bit_of(self.regs[0], i) && address == self.patch_addrs[i]
    }

    /// The first patch at or after `from` that hits an address, or 6.
    pub open spec fn first_hit(self, address: u32, from: int) -> int
        decreases PATCH_COUNT - from,
    {
        if from >= PATCH_COUNT {
            PATCH_COUNT as int
        } else if self.patch_hits(from, address) {
            from
        } else {
            self.first_hit(address, from + 1)
        }
    }

    /// The word that the chip puts in place of a ROM word, if any: the
    /// data of the first patch that is switched on for the address,
    /// while the chip is enabled and its patches are applied.
    pub open spec fn patched(self, address: u32) -> Option<u16> {
        if !self.enabled || !self.patches_enabled || self.first_hit(address, 0) >= PATCH_COUNT {
            None
        } else {
            Some(self.patch_data[self.first_hit(address, 0)])
        }
    }

    /// The snapshot of the chip: five flags, the registers, the patch
    /// data, the patch addresses and the replaced words.
    pub open spec fn snapshot(self) -> Seq<u8> {
        seq![
            flag_of(self.enabled),
            flag_of(self.patches_enabled),
            flag_of(self.mode_bit),
            flag_of(self.read_enable_bit),
            flag_of(self.lock_bit),
        ] + words_le(self.regs) + words_le(self.patch_data) + dwords_le(self.patch_addrs) + words_le(
            self.old_values,
        )
    }

    /// The chip after a snapshot was loaded: everything but the lock ROM
    /// is the snapshot's.
    pub open spec fn restored(self, data: Seq<u8>) -> GenieState {
        GenieState {
            enabled: data[0] != 0,
            patches_enabled: data[1] != 0,
            mode_bit: data[2] != 0,
            read_enable_bit: data[3] != 0,
            lock_bit: data[4] != 0,
            regs: words_at(data, 5, REG_COUNT as int),
            patch_data: words_at(data, 69, PATCH_COUNT as int),
            patch_addrs: dwords_at(data, 81, PATCH_COUNT as int),
            old_values: words_at(data, 105, PATCH_COUNT as int),
            lockrom: self.lockrom,
        }
    }

    /// The chip with its patch tables decoded from the registers.
    pub open spec fn with_decoded_patches(self) -> GenieState {
        GenieState {
            patch_addrs: Seq::new(PATCH_COUNT as nat, |k: int| patch_addr_of(self.regs, k)),
            patch_data: Seq::new(PATCH_COUNT as nat, |k: int| patch_data_of(self.regs, k)),
            ..self
        }
    }

    /// The chip after a write to a register. The mode register, number
    /// 0, sets MODE, READ_ENABLE and LOCK from bits 10, 9 and 8; raising
    /// LOCK decodes the patches and applies them, dropping it lifts
    /// them. The other registers only store.
    pub open spec fn after_register_write(self, offset: int, data: u16) -> GenieState
        recommends
            0 <= offset < REG_COUNT,
    {
        let stored = GenieState { regs: self.regs.update(offset, data), ..self };
        if offset != 0 {
            stored
        } else {
            let lock = (data / 0x100) % 2 == 1;
            let flagged = GenieState {
                mode_bit: (data / 0x400) % 2 == 1,
                read_enable_bit: (data / 0x200) % 2 == 1,
                lock_bit: lock,
                ..stored
            };
            if lock == self.lock_bit {
                flagged
            } else if lock {
                GenieState { patches_enabled: true, ..flagged.with_decoded_patches() }
            } else {
                GenieState { patches_enabled: false, ..flagged }
            }
        }
    }

    /// The chip after a reset: the patches are lifted, and a hard reset
    /// also zeroes the registers and the patch tables. A disabled chip
    /// ignores resets.
    pub open spec fn after_reset(self, hard_reset: bool) -> GenieState {
        if !self.enabled {
            self
        } else if hard_reset {
            GenieState { enabled: true, lockrom: self.lockrom, ..GenieState::initial() }
        } else {
            GenieState { patches_enabled: false, ..self }
        }
    }
}

impl GameGenie {
    /// A chip without its ROM: disabled, every register zero.
    pub fn new() -> (r: Self)
        ensures
            r@ == GenieState::initial(),
    {
        let r = GameGenie {
            enabled: false,
            regs: [0; 0x20],
            old_values: [0; 6],
            patch_data: [0; 6],
            patch_addrs: [0; 6],
            lockrom: Vec::new(),
            patches_enabled: false,
            mode_bit: false,
            read_enable_bit: false,
            lock_bit: false,
        };
        assert(r.regs@ =~= Seq::new(REG_COUNT as nat, |i: int| 0u16));
        assert(r.old_values@ =~= Seq::new(PATCH_COUNT as nat, |i: int| 0u16));
        assert(r.patch_data@ =~= Seq::new(PATCH_COUNT as nat, |i: int| 0u16));
        assert(r.patch_addrs@ =~= Seq::new(PATCH_COUNT as nat, |i: int| 0u32));
        assert(r.lockrom@ =~= Seq::<u8>::empty());
        r
    }

    /// Takes the lock ROM image and enables the chip. An image that is
    /// not 32 KiB long leaves the chip disabled.
    pub fn init(&mut self, rom: &[u8]) -> (ok: bool)
        ensures
            ok == (rom@.len() == LOCK_ROM_SIZE),
            ok ==> final(self)@ == (GenieState { enabled: true, lockrom: lock_rom_of(rom@), ..old(self)@ }),
            !ok ==> final(self)@ == (GenieState { enabled: false, ..old(self)@ }),
    {
        self.enabled = false;
        if rom.len() != LOCK_ROM_SIZE {
            return false;
        }
        let mut full: Vec<u8> = Vec::new();
        let mut i: usize = 0;
        while i < 2 * LOCK_ROM_SIZE
            invariant
                i <= 2 * LOCK_ROM_SIZE,
                rom@.len() == LOCK_ROM_SIZE,
                full@.len() == i,
                forall|j: int| 0 <= j < i ==> full@[j] == lock_rom_of(rom@)[j],
            decreases 2 * LOCK_ROM_SIZE - i,
        {
            let k: usize = i % LOCK_ROM_SIZE;
            if k % 2 == 0 {
                full.push(rom[k + 1]);
            } else {
                full.push(rom[k - 1]);
            }
            i = i + 1;
        }
        assert(full@ =~= lock_rom_of(rom@));
        self.lockrom = full;
        self.enabled = true;
        true
    }

    /// Takes the patches off and disables the chip.
    pub fn shutdown(&mut self)
        ensures
            old(self).enabled ==> final(self)@ == (GenieState { enabled: false, patches_enabled: false, ..old(self)@ }),
            !old(self).enabled ==> final(self)@ == old(self)@,
    {
        if self.enabled {
            self.switch_patches(false);
            self.enabled = false;
        }
    }

    /// Takes the patches off; a hard reset also zeroes the registers and
    /// the patch tables. A disabled chip ignores resets.
    pub fn reset(&mut self, hard_reset: bool)
        ensures
            final(self)@ == old(self)@.after_reset(hard_reset),
    {
        if !self.enabled {
            return;
        }
        self.switch_patches(false);
        if hard_reset {
            self.regs = [0; 0x20];
            self.old_values = [0; 6];
            self.patch_data = [0; 6];
            self.patch_addrs = [0; 6];
            self.patches_enabled = false;
            self.mode_bit = false;
            self.read_enable_bit = false;
            self.lock_bit = false;
            assert(self.regs@ =~= Seq::new(REG_COUNT as nat, |i: int| 0u16));
            assert(self.old_values@ =~= Seq::new(PATCH_COUNT as nat, |i: int| 0u16));
            assert(self.patch_data@ =~= Seq::new(PATCH_COUNT as nat, |i: int| 0u16));
            assert(self.patch_addrs@ =~= Seq::new(PATCH_COUNT as nat, |i: int| 0u32));
        }
    }

    /// Applies or lifts the patches. The ROM itself is never written:
    /// reads are patched on the way through.
    fn switch_patches(&mut self, enable: bool)
        ensures
            final(self)@ == (GenieState { patches_enabled: enable, ..old(self)@ }),
    {
        self.patches_enabled = enable;
    }

    /// Reads a byte of a register: the high byte at even addresses, the
    /// low byte at odd ones. A disabled chip reads as 0xFF.
    pub fn read_byte(&self, address: u32) -> (r: u8)
        ensures
            r == (if !self.enabled {
                0xFFu8
            } else if address % 2 == 1 {
                lo_byte(self.regs[reg_of(address)])
            } else {
                hi_byte(self.regs[reg_of(address)])
            }),
    {
        if !self.enabled {
            return 0xFF;
        }
        let offset: usize = ((address / 2) % 0x20) as usize;
        let data = self.regs[offset];
        if address % 2 == 1 {
            low_byte(data)
        } else {
            high_byte(data)
        }
    }

    /// Reads a register. A disabled chip reads as 0xFFFF.
    pub fn read_word(&self, address: u32) -> (r: u16)
        ensures
            r == (if self.enabled {
                self.regs[reg_of(address)]
            } else {
                0xFFFFu16
            }),
    {
        if !self.enabled {
            return 0xFFFF;
        }
        let offset: usize = ((address / 2) % 0x20) as usize;
        self.regs[offset]
    }

    /// Writes one byte of a register, as a register write of the word
    /// with that byte replaced.
    pub fn write_byte(&mut self, address: u32, data: u8)
        ensures
            !old(self).enabled ==> final(self)@ == old(self)@,
            old(self).enabled ==> final(self)@ == old(self)@.after_register_write(
                reg_of(address),
                if address % 2 == 1 {
                    word_of(data, hi_byte(old(self).regs[reg_of(address)]))
                } else {
                    word_of(lo_byte(old(self).regs[reg_of(address)]), data)
                },
            ),
    {
        if !self.enabled {
            return;
        }
        let offset: usize = ((address / 2) % 0x20) as usize;
        let current = self.regs[offset];
        let new_value = if address % 2 == 1 {
            with_low_byte(current, data)
        } else {
            with_high_byte(current, data)
        };
        self.write_register(offset, new_value);
    }

    /// Writes a register.
    pub fn write_word(&mut self, address: u32, data: u16)
        ensures
            !old(self).enabled ==> final(self)@ == old(self)@,
            old(self).enabled ==> final(self)@ == old(self)@.after_register_write(reg_of(address), data),
    {
        if !self.enabled {
            return;
        }
        let offset: usize = ((address / 2) % 0x20) as usize;
        self.write_register(offset, data);
    }

    fn write_register(&mut self, offset: usize, data: u16)
        requires
            offset < REG_COUNT,
        ensures
            final(self)@ == old(self)@.after_register_write(offset as int, data),
    {
        self.regs[offset] = data;
        if offset == 0 {
            let old_lock = self.lock_bit;
            self.mode_bit = (data / 0x400) % 2 == 1;
            self.read_enable_bit = (data / 0x200) % 2 == 1;
            self.lock_bit = (data / 0x100) % 2 == 1;
            if self.lock_bit != old_lock {
                if self.lock_bit {
                    self.decode_patches();
                    self.switch_patches(true);
                } else {
                    self.switch_patches(false);
                }
            }
        }
    }

    fn decode_patches(&mut self)
        ensures
            final(self)@ == old(self)@.with_decoded_patches(),
    {
        let mut k: usize = 0;
        while k < PATCH_COUNT
            invariant
                k <= PATCH_COUNT,
                self@ == (GenieState { patch_addrs: self@.patch_addrs, patch_data: self@.patch_data, ..old(self)@ }),
                forall|j: int| 0 <= j < k ==> self.patch_addrs[j] == patch_addr_of(old(self).regs@, j),
                forall|j: int| 0 <= j < k ==> self.patch_data[j] == patch_data_of(old(self).regs@, j),
                forall|j: int| k <= j < PATCH_COUNT ==> self.patch_addrs[j] == old(self).patch_addrs[j],
                forall|j: int| k <= j < PATCH_COUNT ==> self.patch_data[j] == old(self).patch_data[j],
            decreases PATCH_COUNT - k,
        {
            self.patch_addrs[k] = ((self.regs[2 + 3 * k] % 64) as u32) * 0x1_0000 + (self.regs[3 + 3 * k] as u32);
            self.patch_data[k] = self.regs[4 + 3 * k];
            k = k + 1;
        }
        assert(self@.patch_addrs =~= old(self)@.with_decoded_patches().patch_addrs);
        assert(self@.patch_data =~= old(self)@.with_decoded_patches().patch_data);
    }

    /// The word to read in place of the ROM word at `address`, if the
    /// chip patches that address.
    pub fn check_patch(&self, address: u32, original_data: u16) -> (r: Option<u16>)
        ensures
            r == self@.patched(address),
    {
        if !self.enabled || !self.patches_enabled {
            return None;
        }
        let mut i: usize = 0;
        while i < PATCH_COUNT
            invariant
                i <= PATCH_COUNT,
                self.enabled,
                self.patches_enabled,
                self@.first_hit(address, 0) == self@.first_hit(address, i as int),
            decreases PATCH_COUNT - i,
        {
            if bit_at(self.regs[0], i as u32) {
                if address == self.patch_addrs[i] {
                    return Some(self.patch_data[i]);
                }
            }
            i = i + 1;
        }
        None
    }

    /// The lock ROM as the chip maps it.
    pub fn get_rom(&self) -> (r: &Vec<u8>)
        ensures
            r@ == self.lockrom@,
    {
        &self.lockrom
    }

    pub fn is_enabled(&self) -> (r: bool)
        ensures
            r == self.enabled,
    {
        self.enabled
    }

    pub fn patches_active(&self) -> (r: bool)
        ensures
            r == self.patches_enabled,
    {
        self.patches_enabled
    }

    pub fn mode_bit(&self) -> (r: bool)
        ensures
            r == self.mode_bit,
    {
        self.mode_bit
    }

    pub fn read_enable_bit(&self) -> (r: bool)
        ensures
            r == self.read_enable_bit,
    {
        self.read_enable_bit
    }

    pub fn lock_bit(&self) -> (r: bool)
        ensures
            r == self.lock_bit,
    {
        self.lock_bit
    }

    /// Writes the snapshot of the chip.
    pub fn save_state(&self) -> (state: Vec<u8>)
        ensures
            state@ == self@.snapshot(),
            state@.len() == SNAPSHOT_BYTES,
    {
        let mut state: Vec<u8> = Vec::new();
        state.push(flag_byte(self.enabled));
        state.push(flag_byte(self.patches_enabled));
        state.push(flag_byte(self.mode_bit));
        state.push(flag_byte(self.read_enable_bit));
        state.push(flag_byte(self.lock_bit));
        assert(state@ =~= seq![
            flag_of(self.enabled),
            flag_of(self.patches_enabled),
            flag_of(self.mode_bit),
            flag_of(self.read_enable_bit),
            flag_of(self.lock_bit),
        ]);
        push_words(&mut state, self.regs.as_slice());
        push_words(&mut state, self.patch_data.as_slice());
        push_dwords(&mut state, self.patch_addrs.as_slice());
        push_words(&mut state, self.old_values.as_slice());
        state
    }

    /// Loads a snapshot. One shorter than a snapshot is refused before
    /// anything is changed. The lock ROM stays.
    pub fn load_state(&mut self, data: &[u8]) -> (ok: bool)
        ensures
            ok == (data@.len() >= SNAPSHOT_BYTES),
            !ok ==> final(self)@ == old(self)@,
            ok ==> final(self)@ == old(self)@.restored(data@),
    {
        if data.len() < SNAPSHOT_BYTES {
            return false;
        }
        self.enabled = data[0] != 0;
        self.patches_enabled = data[1] != 0;
        self.mode_bit = data[2] != 0;
        self.read_enable_bit = data[3] != 0;
        self.lock_bit = data[4] != 0;
        let mut i: usize = 0;
        while i < REG_COUNT
            invariant
                i <= REG_COUNT,
                data@.len() >= SNAPSHOT_BYTES,
                self.lockrom == old(self).lockrom,
                self.enabled == (data@[0] != 0),
                self.patches_enabled == (data@[1] != 0),
                self.mode_bit == (data@[2] != 0),
                self.read_enable_bit == (data@[3] != 0),
                self.lock_bit == (data@[4] != 0),
                forall|j: int| 0 <= j < i ==> self.regs[j] == u16_at(data@, 5 + 2 * j),
            decreases REG_COUNT - i,
        {
            self.regs[i] = read_u16(data, 5 + 2 * i);
            i = i + 1;
        }
        let mut k: usize = 0;
        while k < PATCH_COUNT
            invariant
                k <= PATCH_COUNT,
                data@.len() >= SNAPSHOT_BYTES,
                self.lockrom == old(self).lockrom,
                self.enabled == (data@[0] != 0),
                self.patches_enabled == (data@[1] != 0),
                self.mode_bit == (data@[2] != 0),
                self.read_enable_bit == (data@[3] != 0),
                self.lock_bit == (data@[4] != 0),
                forall|j: int| 0 <= j < REG_COUNT ==> self.regs[j] == u16_at(data@, 5 + 2 * j),
                forall|j: int| 0 <= j < k ==> self.patch_data[j] == u16_at(data@, 69 + 2 * j),
                forall|j: int| 0 <= j < k ==> self.patch_addrs[j] == u32_at(data@, 81 + 4 * j),
                forall|j: int| 0 <= j < k ==> self.old_values[j] == u16_at(data@, 105 + 2 * j),
            decreases PATCH_COUNT - k,
        {
            self.patch_data[k] = read_u16(data, 69 + 2 * k);
            self.patch_addrs[k] = read_u32(data, 81 + 4 * k);
            self.old_values[k] = read_u16(data, 105 + 2 * k);
            k = k + 1;
        }
        assert(self.regs@ =~= words_at(data@, 5, REG_COUNT as int));
        assert(self.patch_data@ =~= words_at(data@, 69, PATCH_COUNT as int));
        assert(self.patch_addrs@ =~= dwords_at(data@, 81, PATCH_COUNT as int));
        assert(self.old_values@ =~= words_at(data@, 105, PATCH_COUNT as int));
        true
    }
}

/// The chip on the bus: registers and lock ROM in front of the
/// cartridge, and patches on the way through.
pub struct GameGenieMemoryHandler {
    pub game_genie: GameGenie,
    pub cart: Option<Cartridge>,
}

impl GameGenieMemoryHandler {
    /// The byte that the cartridge gives, or 0xFF without one.
    pub open spec fn cart_byte(&self, address: u32) -> u8 {
        match self.cart {
            Some(c) => c.rom_byte(address),
            None => 0xFF,
        }
    }

    /// The word that the cartridge gives, or 0xFFFF without one.
    pub open spec fn cart_word(&self, address: u32) -> u16 {
        match self.cart {
            Some(c) => c.rom_word(address),
            None => 0xFFFF,
        }
    }

    /// The lock ROM answers at an address: MODE is clear and the address
    /// lies in the first 32 KiB.
    pub open spec fn lock_rom_mapped(&self, address: u32) -> bool {
        self.game_genie.enabled && !self.game_genie.mode_bit && address < 0x8000
    }

    /// The byte read at an address: a register in the first 32 bytes,
    /// the lock ROM where it is mapped, the cartridge elsewhere. With the
    /// chip disabled the cartridge answers everywhere.
    pub open spec fn byte_at(&self, address: u32) -> u8 {
        let gg = self.game_genie@;
        if gg.enabled && address < 0x20 {
            if address % 2 == 1 {
                lo_byte(gg.regs[reg_of(address)])
            } else {
                hi_byte(gg.regs[reg_of(address)])
            }
        } else if self.lock_rom_mapped(address) && address < gg.lockrom.len() {
            gg.lockrom[address as int]
        } else {
            self.cart_byte(address)
        }
    }

    /// The word read at an address: a register, the lock ROM, or the
    /// cartridge's word with the patches applied.
    pub open spec fn word_at(&self, address: u32) -> u16 {
        let gg = self.game_genie@;
        if gg.enabled && address < 0x20 {
            gg.regs[reg_of(address)]
        } else if self.lock_rom_mapped(address) && address + 1 < gg.lockrom.len() {
            word_of(gg.lockrom[address as int], gg.lockrom[address as int + 1])
        } else if gg.enabled && address <= 0x3F_FFFF && self.cart is Some {
            match gg.patched(address) {
                Some(p) => p,
                None => self.cart_word(address),
            }
        } else {
            self.cart_word(address)
        }
    }

    pub fn new() -> (r: Self)
        ensures
            r.game_genie@ == GenieState::initial(),
            r.cart is None,
    {
        GameGenieMemoryHandler { game_genie: GameGenie::new(), cart: None }
    }

    /// Plugs in the cartridge and hands the chip its lock ROM.
    pub fn init(&mut self, cart: Cartridge, rom: &[u8]) -> (ok: bool)
        ensures
            ok == (rom@.len() == LOCK_ROM_SIZE),
            final(self).cart == Some(cart),
            final(self).game_genie@ == (if ok {
                GenieState { enabled: true, lockrom: lock_rom_of(rom@), ..old(self).game_genie@ }
            } else {
                GenieState { enabled: false, ..old(self).game_genie@ }
            }),
    {
        self.cart = Some(cart);
        self.game_genie.init(rom)
    }

    pub fn read_byte(&self, address: u32) -> (r: u8)
        ensures
            r == self.byte_at(address),
    {
        if self.game_genie.is_enabled() {
            if address < 0x20 {
                return self.game_genie.read_byte(address);
            }
            if !self.game_genie.mode_bit() && address < 0x8000 {
                let rom = self.game_genie.get_rom();
                let rom_addr: usize = address as usize;
                if rom_addr < rom.len() {
                    return rom[rom_addr];
                }
            }
        }
        match &self.cart {
            Some(cart) => cart.read_byte(address),
            None => 0xFF,
        }
    }

    pub fn read_word(&self, address: u32) -> (r: u16)
        ensures
            r == self.word_at(address),
    {
        if self.game_genie.is_enabled() {
            if address < 0x20 {
                return self.game_genie.read_word(address);
            }
            if !self.game_genie.mode_bit() && address < 0x8000 {
                let rom = self.game_genie.get_rom();
                let rom_addr: usize = address as usize;
                if rom_addr + 1 < rom.len() {
                    return make_word(rom[rom_addr], rom[rom_addr + 1]);
                }
            }
            if address <= 0x3F_FFFF {
                match &self.cart {
                    Some(cart) => {
                        let original = cart.read_word(address);
                        return match self.game_genie.check_patch(address, original) {
                            Some(patched) => patched,
                            None => original,
                        };
                    },
                    None => {},
                }
            }
        }
        match &self.cart {
            Some(cart) => cart.read_word(address),
            None => 0xFFFF,
        }
    }

    /// `after` is the cartridge slot after a write that reached the
    /// cartridge put `image` in place of its ROM.
    pub open spec fn cart_written_to(self, image: Seq<u8>, after: Self) -> bool {
        match self.cart {
            Some(c) => after.cart matches Some(d) && d == (Cartridge { rom: d.rom, ..c }) && d.rom@ == image,
            None => after.cart is None,
        }
    }

    /// `after` is the handler after a byte write: the registers take the
    /// first 32 bytes of an enabled chip; everything else reaches the
    /// cartridge.
    pub open spec fn byte_write_to(self, address: u32, value: u8, after: Self) -> bool {
        if self.game_genie.enabled && address < 0x20 {
            after.cart == self.cart && after.game_genie@ == self.game_genie@.after_register_write(
                reg_of(address),
                if address % 2 == 1 {
                    word_of(value, hi_byte(self.game_genie.regs[reg_of(address)]))
                } else {
                    word_of(lo_byte(self.game_genie.regs[reg_of(address)]), value)
                },
            )
        } else {
            after.game_genie@ == self.game_genie@ && self.cart_written_to(
                match self.cart {
                    Some(c) => c.rom_with(address, value),
                    None => Seq::empty(),
                },
                after,
            )
        }
    }

    /// `after` is the handler after a word write, routed as a byte write
    /// is.
    pub open spec fn word_write_to(self, address: u32, value: u16, after: Self) -> bool {
        if self.game_genie.enabled && address < 0x20 {
            after.cart == self.cart && after.game_genie@ == self.game_genie@.after_register_write(
                reg_of(address),
                value,
            )
        } else {
            after.game_genie@ == self.game_genie@ && self.cart_written_to(
                match self.cart {
                    Some(c) => c.rom_with_word(address, value),
                    None => Seq::empty(),
                },
                after,
            )
        }
    }

    /// A byte write: the registers take the first 32 bytes of an enabled
    /// chip; everything else reaches the cartridge.
    pub fn write_byte(&mut self, address: u32, value: u8)
        ensures
            old(self).byte_write_to(address, value, *final(self)),
    {
        if self.game_genie.is_enabled() {
            if address < 0x20 {
                self.game_genie.write_byte(address, value);
                return;
            }
        }
        match self.cart.as_mut() {
            Some(cart) => {
                cart.write_byte(address, value);
            },
            None => {},
        }
    }

    /// A word write, routed as a byte write is.
    pub fn write_word(&mut self, address: u32, value: u16)
        ensures
            old(self).word_write_to(address, value, *final(self)),
    {
        if self.game_genie.is_enabled() {
            if address < 0x20 {
                self.game_genie.write_word(address, value);
                return;
            }
        }
        match self.cart.as_mut() {
            Some(cart) => {
                cart.write_word(address, value);
            },
            None => {},
        }
    }

    pub fn reset(&mut self, hard_reset: bool)
        ensures
            final(self).cart == old(self).cart,
            final(self).game_genie@ == old(self).game_genie@.after_reset(hard_reset),
    {
        self.game_genie.reset(hard_reset);
    }

    /// Switches the chip off; the cartridge stays.
    pub fn shutdown(&mut self)
        ensures
            final(self).cart == old(self).cart,
            final(self).game_genie@ == (if old(self).game_genie.enabled {
                GenieState { enabled: false, patches_enabled: false, ..old(self).game_genie@ }
            } else {
                old(self).game_genie@
            }),
    {
        self.game_genie.shutdown();
    }

    pub fn get_game_genie(&self) -> (r: &GameGenie)
        ensures
            *r == self.game_genie,
    {
        &self.game_genie
    }

    pub fn get_game_genie_mut(&mut self) -> (r: &mut GameGenie)
        ensures
            *r == old(self).game_genie,
            final(self).game_genie == *final(r),
            final(self).cart == old(self).cart,
    {
        &mut self.game_genie
    }

    pub fn get_type(&self) -> (t: ChipType)
        ensures
            t == ChipType::GameGenie,
    {
        ChipType::GameGenie
    }
}

} // verus!
