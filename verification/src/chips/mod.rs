//! Enhancement chips that sit in a cartridge beside the ROM: which one a
//! cartridge carries, one type for all of them, and a manager that holds
//! the chips of a running system.

use vstd::prelude::*;
use crate::chips::action_replay::ActionReplay;
use crate::chips::game_genie::{GameGenieMemoryHandler, GenieState, LOCK_ROM_SIZE};
use crate::chips::mega_sd::MegaSDMemoryHandler;
use crate::chips::yx5200::Yx5200;
use crate::svp::processor::RenderCommand;
use crate::svp::SVP;

pub mod action_replay;
pub mod detect;
pub mod game_genie;
pub mod mega_sd;
pub mod minimp3;
pub mod paprium;
pub mod yx5200;

verus! {

/// Which enhancement chip a cartridge carries.
#[derive(Clone, Copy, Debug, PartialEq, Eq, Hash, Structural)]
pub enum ChipType {
    /// No enhancement chip.
    NoChip,
    /// Sega Virtua Processor.
    SVP,
    /// YX5200 MP3 player.
    Yx5200,
    /// Action Replay or Pro Action Replay.
    ActionReplay,
    GameGenie,
    /// MegaSD flash cartridge.
    MegaSD,
    /// Sega PCM sound chip.
    SegaPCM,
    Paprium,
    /// A chip known by its code only.
    Other(u8),
}

impl ChipType {
    /// The type of a cartridge without a chip.
    pub fn default() -> (r: Self)
        ensures
            r == ChipType::NoChip,
    {
        ChipType::NoChip
    }
}

/// The hexadecimal digit of a value below sixteen, in capitals.
pub open spec fn hex_digit(n: int) -> char {
    if n < 10 {
        (0x30 + n) as char
    } else {
        (0x41 + n - 10) as char
    }
}

/// The name of a chip known by its code only: "Other(" and the code as
/// two hexadecimal digits and ")".
pub open spec fn other_label(code: u8) -> Seq<char> {
    seq!['O', 't', 'h', 'e', 'r', '('] + seq![hex_digit(code as int / 16), hex_digit(code as int % 16)] + seq![')']
}

/// Formats the name of a chip known by its code only, with
/// `std::format!`: the code comes out as two capital hexadecimal digits
/// between "Other(" and ")".
#[verifier::external_body]
fn format_other(code: u8) -> (r: String)
    ensures
        r@ == other_label(code),
{
    format!("Other({:02X})", code)
}

impl ChipType {
    /// The name of the chip type.
    pub open spec fn label(self) -> Seq<char> {
        match self {
            ChipType::NoChip => "None"@,
            ChipType::SVP => "SVP"@,
            ChipType::Yx5200 => "YX5200"@,
            ChipType::ActionReplay => "ActionReplay"@,
            ChipType::GameGenie => "GameGenie"@,
            ChipType::MegaSD => "MegaSD"@,
            ChipType::SegaPCM => "SegaPCM"@,
            ChipType::Paprium => "Paprium"@,
            ChipType::Other(code) => other_label(code),
        }
    }

    pub fn to_string(&self) -> (r: String)
        ensures
            r@ == self.label(),
    {
        match self {
            ChipType::NoChip => "None".to_owned(),
            ChipType::SVP => "SVP".to_owned(),
            ChipType::Yx5200 => "YX5200".to_owned(),
            ChipType::ActionReplay => "ActionReplay".to_owned(),
            ChipType::GameGenie => "GameGenie".to_owned(),
            ChipType::MegaSD => "MegaSD".to_owned(),
            ChipType::SegaPCM => "SegaPCM".to_owned(),
            ChipType::Paprium => "Paprium".to_owned(),
            ChipType::Other(code) => format_other(*code),
        }
    }
}

/// A chip: the closed set of the chips that this library knows.
pub enum Chip {
    Svp(Box<SVP>),
    Yx5200(Yx5200),
    ActionReplay(ActionReplay),
    GameGenie(GameGenieMemoryHandler),
    MegaSD(MegaSDMemoryHandler),
}

impl Chip {
    /// The pixels that the chip shows; only the SVP shows any.
    pub fn get_frame_buffer(&self) -> (r: Option<&Vec<u16>>)
        ensures
            r is Some == (self is Svp),
            self matches Chip::Svp(s) ==> r->0@ == s@.renderer.framebuffer.front,
    {
        match self {
            Chip::Svp(s) => Some(s.get_frame_buffer()),
            _ => None,
        }
    }
}

/// What every chip offers the system. A chip that has no memory window
/// reads as open bus and ignores writes; one that raises no interrupt
/// never has one pending; only the SVP has render commands.
impl Chip {
    /// The chip's own invariant.
    pub open spec fn wf(&self) -> bool {
        match self {
            Chip::Svp(s) => s.wf(),
            Chip::Yx5200(y) => y.wf(),
            _ => true,
        }
    }

    /// The type of the chip.
    pub open spec fn kind(&self) -> ChipType {
        match self {
            Chip::Svp(_) => ChipType::SVP,
            Chip::Yx5200(_) => ChipType::Yx5200,
            Chip::ActionReplay(_) => ChipType::ActionReplay,
            Chip::GameGenie(_) => ChipType::GameGenie,
            Chip::MegaSD(_) => ChipType::MegaSD,
        }
    }

    /// The byte that the chip gives at an address.
    pub open spec fn byte_at(&self, addr: u32) -> u8 {
        match self {
            Chip::Svp(s) => if addr % 2 == 0 {
                crate::bits::lo_byte(s@.word_at(crate::svp::map::chip_addr((addr - addr % 2) as u32)))
            } else {
                crate::bits::hi_byte(s@.word_at(crate::svp::map::chip_addr((addr - addr % 2) as u32)))
            },
            Chip::GameGenie(g) => g.byte_at(addr),
            Chip::MegaSD(m) => m.byte_at(addr),
            _ => 0xFF,
        }
    }

    /// The word that the chip gives at an address.
    pub open spec fn word_at(&self, addr: u32) -> u16 {
        match self {
            Chip::Svp(s) => s@.word_at(crate::svp::map::chip_addr(addr)),
            Chip::GameGenie(g) => g.word_at(addr),
            Chip::MegaSD(m) => m.word_at(addr),
            _ => 0xFFFF,
        }
    }

    /// The chip has an interrupt pending.
    pub open spec fn wants_irq(&self) -> bool {
        match self {
            Chip::Svp(s) => s@.irq_pending,
            _ => false,
        }
    }

    /// The chip is one that `update`, `tick` and the render-command
    /// calls leave as it is: any but the SVP.
    pub open spec fn is_passive(&self) -> bool {
        !(self is Svp)
    }

    /// `after` is the chip `cycles` clocks later: the SVP has run its
    /// clocks, every other chip is as it was.
    pub open spec fn updates_to(self, cycles: u32, after: Chip) -> bool {
        match self {
            Chip::Svp(s) => after matches Chip::Svp(t) && t.wf() && t@ == s@.after_ticks(cycles as nat),
            _ => after == self,
        }
    }

    /// `after` is the chip after a reset: each chip in its own reset
    /// state, the cheat devices reset hard, the MegaSD as at power-on.
    pub open spec fn resets_to(self, after: Chip) -> bool {
        match self {
            Chip::Svp(s) => after matches Chip::Svp(t) && t.wf() && t@ == s@.after_reset(),
            Chip::Yx5200(y) => after matches Chip::Yx5200(z) && z.wf() && z@
                == crate::chips::yx5200::PlayerState::initial(y@.rom_path),
            Chip::ActionReplay(a) => after matches Chip::ActionReplay(b) && b@ == a@.after_reset(true),
            Chip::GameGenie(g) => after matches Chip::GameGenie(h) && h.game_genie@ == g.game_genie@.after_reset(
                true,
            ) && h.cart == g.cart,
            Chip::MegaSD(_) => after matches Chip::MegaSD(n) && n.megasd.powered_on(),
        }
    }

    /// `after` is the chip after a byte write: the SVP, the Game Genie
    /// and the MegaSD take it, the others ignore it.
    pub open spec fn byte_write_to(self, addr: u32, value: u8, after: Chip) -> bool {
        match self {
            Chip::Svp(s) => after matches Chip::Svp(t) && t.wf() && t@ == s@.after_write(
                crate::svp::map::chip_addr((addr - addr % 2) as u32),
                if addr % 2 == 0 {
                    crate::bits::word_of(
                        value,
                        crate::bits::hi_byte(s@.word_at(crate::svp::map::chip_addr((addr - addr % 2) as u32))),
                    )
                } else {
                    crate::bits::word_of(
                        crate::bits::lo_byte(s@.word_at(crate::svp::map::chip_addr((addr - addr % 2) as u32))),
                        value,
                    )
                },
            ),
            Chip::GameGenie(g) => after matches Chip::GameGenie(h) && g.byte_write_to(addr, value, h),
            Chip::MegaSD(m) => after matches Chip::MegaSD(n) && m.byte_write_to(addr, value, n),
            _ => after == self,
        }
    }

    /// `after` is the chip after a word write.
    pub open spec fn word_write_to(self, addr: u32, value: u16, after: Chip) -> bool {
        match self {
            Chip::Svp(s) => after matches Chip::Svp(t) && t.wf() && t@ == s@.after_write(
                crate::svp::map::chip_addr(addr),
                value,
            ),
            Chip::GameGenie(g) => after matches Chip::GameGenie(h) && g.word_write_to(addr, value, h),
            Chip::MegaSD(m) => after matches Chip::MegaSD(n) && m.word_write_to(addr, value, n),
            _ => after == self,
        }
    }

    /// `after` is the chip after a snapshot was loaded, and `ok` whether
    /// it was taken: the chips that keep no snapshot refuse.
    pub open spec fn loads_to(self, data: Seq<u8>, ok: bool, after: Chip) -> bool {
        match self {
            Chip::Svp(s) => ok == (data.len() >= crate::svp::SNAPSHOT_BYTES) && (after matches Chip::Svp(t) && t.wf()
                && t@ == (if ok {
                s@.restored(data)
            } else {
                s@
            })),
            Chip::GameGenie(g) => ok == (data.len() >= crate::chips::game_genie::SNAPSHOT_BYTES) && (
            after matches Chip::GameGenie(h) && h.cart == g.cart && h.game_genie@ == (if ok {
                g.game_genie@.restored(data)
            } else {
                g.game_genie@
            })),
            Chip::MegaSD(m) => after matches Chip::MegaSD(n) && m.megasd.loads_to(data, ok, n.megasd),
            _ => !ok && after == self,
        }
    }

    /// The chip with its render command handed over: none is pending
    /// any more.
    pub open spec fn without_command(self, after: Chip, keep: bool) -> bool {
        match self {
            Chip::Svp(s) => after matches Chip::Svp(t) && t.wf() && t@ == (crate::svp::SvpState {
                processor: crate::svp::processor::ProcessorState {
                    cmd_ready: false,
                    current_cmd: if keep {
                        s@.processor.current_cmd
                    } else {
                        None
                    },
                    ..s@.processor
                },
                ..s@
            }),
            _ => after == self,
        }
    }

    pub fn init(&mut self)
        requires
            old(self).wf(),
        ensures
            final(self).wf(),
            final(self).kind() == old(self).kind(),
            *final(self) == *old(self),
    {
        match self {
            Chip::Svp(s) => s.init(),
            _ => {},
        }
    }

    /// Resets the chip; the cheat devices and the flash cartridge take a
    /// hard reset.
    pub fn reset(&mut self)
        requires
            old(self).wf(),
        ensures
            final(self).wf(),
            final(self).kind() == old(self).kind(),
            old(self).resets_to(*final(self)),
    {
        match self {
            Chip::Svp(s) => s.reset(),
            Chip::Yx5200(y) => y.reset(),
            Chip::ActionReplay(a) => a.reset(true),
            Chip::GameGenie(g) => g.reset(true),
            Chip::MegaSD(m) => m.reset(),
        }
    }

    /// Runs the chip for `cycles` clocks.
    pub fn update(&mut self, cycles: u32)
        requires
            old(self).wf(),
        ensures
            final(self).wf(),
            final(self).kind() == old(self).kind(),
            old(self).updates_to(cycles, *final(self)),
    {
        match self {
            Chip::Svp(s) => s.update(cycles),
            _ => {},
        }
    }

    /// The snapshot of the chip; the chips without one give none.
    pub fn save_state(&self) -> (state: Vec<u8>)
        requires
            self.wf(),
        ensures
            self matches Chip::Svp(s) ==> state@ == s@.snapshot(),
            self matches Chip::GameGenie(g) ==> state@ == g.game_genie@.snapshot(),
            self matches Chip::MegaSD(m) ==> state@ == m.megasd.snapshot(),
            self is Yx5200 || self is ActionReplay ==> state@.len() == 0,
    {
        match self {
            Chip::Svp(s) => s.save_state(),
            Chip::GameGenie(g) => g.game_genie.save_state(),
            Chip::MegaSD(m) => m.megasd.save_state(),
            _ => Vec::new(),
        }
    }

    /// Loads a snapshot; the chips without one refuse.
    pub fn load_state(&mut self, data: &[u8]) -> (ok: bool)
        requires
            old(self).wf(),
        ensures
            final(self).wf(),
            final(self).kind() == old(self).kind(),
            old(self).loads_to(data@, ok, *final(self)),
    {
        match self {
            Chip::Svp(s) => s.load_state(data),
            Chip::GameGenie(g) => g.game_genie.load_state(data),
            Chip::MegaSD(m) => m.megasd.load_state(data),
            _ => false,
        }
    }

    pub fn chip_type(&self) -> (t: ChipType)
        ensures
            t == self.kind(),
    {
        match self {
            Chip::Svp(_) => ChipType::SVP,
            Chip::Yx5200(_) => ChipType::Yx5200,
            Chip::ActionReplay(_) => ChipType::ActionReplay,
            Chip::GameGenie(_) => ChipType::GameGenie,
            Chip::MegaSD(_) => ChipType::MegaSD,
        }
    }

    pub fn irq_pending(&self) -> (r: bool)
        requires
            self.wf(),
        ensures
            r == self.wants_irq(),
    {
        match self {
            Chip::Svp(s) => s.irq_pending(),
            _ => false,
        }
    }

    pub fn read_byte(&self, addr: u32) -> (r: u8)
        requires
            self.wf(),
        ensures
            r == self.byte_at(addr),
    {
        match self {
            Chip::Svp(s) => s.read_byte(addr),
            Chip::GameGenie(g) => g.read_byte(addr),
            Chip::MegaSD(m) => m.read_byte(addr),
            _ => 0xFF,
        }
    }

    pub fn read_word(&self, addr: u32) -> (r: u16)
        requires
            self.wf(),
        ensures
            r == self.word_at(addr),
    {
        match self {
            Chip::Svp(s) => s.read_word(addr),
            Chip::GameGenie(g) => g.read_word(addr),
            Chip::MegaSD(m) => m.read_word(addr),
            _ => 0xFFFF,
        }
    }

    pub fn write_byte(&mut self, addr: u32, value: u8)
        requires
            old(self).wf(),
        ensures
            final(self).wf(),
            final(self).kind() == old(self).kind(),
            old(self).byte_write_to(addr, value, *final(self)),
    {
        match self {
            Chip::Svp(s) => s.write_byte(addr, value),
            Chip::GameGenie(g) => g.write_byte(addr, value),
            Chip::MegaSD(m) => m.write_byte(addr, value),
            _ => {},
        }
    }

    pub fn write_word(&mut self, addr: u32, value: u16)
        requires
            old(self).wf(),
        ensures
            final(self).wf(),
            final(self).kind() == old(self).kind(),
            old(self).word_write_to(addr, value, *final(self)),
    {
        match self {
            Chip::Svp(s) => s.write_word(addr, value),
            Chip::GameGenie(g) => g.write_word(addr, value),
            Chip::MegaSD(m) => m.write_word(addr, value),
            _ => {},
        }
    }

    /// Hands a bit time of the serial line to the chip that listens to
    /// it, and returns what the MP3 player asks of the host.
    pub fn write_serial(&mut self, data: u8) -> (request: crate::chips::yx5200::TrackRequest)
        requires
            old(self).wf(),
        ensures
            final(self).wf(),
            final(self).kind() == old(self).kind(),
            !(*old(self) is Yx5200) ==> *final(self) == *old(self) && request
                == crate::chips::yx5200::TrackRequest::Idle,
            *old(self) matches Chip::Yx5200(y) ==> *final(self) matches Chip::Yx5200(z) && (z@, request)
                == y@.received(data != 0),
    {
        match self {
            Chip::Yx5200(y) => y.write(data),
            _ => crate::chips::yx5200::TrackRequest::Idle,
        }
    }

    pub fn get_render_command(&mut self) -> (r: Option<RenderCommand>)
        requires
            old(self).wf(),
        ensures
            final(self).wf(),
            final(self).kind() == old(self).kind(),
            match *old(self) {
                Chip::Svp(s) => if s@.processor.cmd_ready {
                    r is Some && Some(r->0@) == s@.processor.current_cmd && old(self).without_command(*final(self), false)
                } else {
                    r is None && (*final(self) matches Chip::Svp(t) && t@ == s@)
                },
                _ => r is None && *final(self) == *old(self),
            },
    {
        match self {
            Chip::Svp(s) => s.get_render_command(),
            _ => None,
        }
    }

    pub fn command_completed(&mut self)
        requires
            old(self).wf(),
        ensures
            final(self).wf(),
            final(self).kind() == old(self).kind(),
            old(self).without_command(*final(self), true),
    {
        match self {
            Chip::Svp(s) => s.command_completed(),
            _ => {},
        }
    }

    pub fn render_command_ready(&self) -> (r: bool)
        requires
            self.wf(),
        ensures
            r == (self matches Chip::Svp(s) && s@.processor.cmd_ready),
    {
        match self {
            Chip::Svp(s) => s.render_command_ready(),
            _ => false,
        }
    }

    pub fn write_command_buffer(&mut self, value: u16)
        requires
            old(self).wf(),
        ensures
            final(self).wf(),
            final(self).kind() == old(self).kind(),
            match *old(self) {
                Chip::Svp(s) => *final(self) matches Chip::Svp(t) && t@ == (crate::svp::SvpState {
                    processor: s@.processor.with_command_word(value),
                    ..s@
                }),
                _ => *final(self) == *old(self),
            },
    {
        match self {
            Chip::Svp(s) => s.write_command_buffer(value),
            _ => {},
        }
    }

    /// Runs the chip for `cycles` clocks, as `update` does.
    pub fn tick(&mut self, cycles: u32)
        requires
            old(self).wf(),
        ensures
            final(self).wf(),
            final(self).kind() == old(self).kind(),
            old(self).updates_to(cycles, *final(self)),
    {
        self.update(cycles);
    }
}

/// The chip that `create_chip` makes for a type, if it makes one.
pub open spec fn creates(chip_type: ChipType, firmware: Seq<u8>) -> bool {
    match chip_type {
        ChipType::SVP => true,
        ChipType::Yx5200 => true,
        ChipType::ActionReplay => true,
        ChipType::GameGenie => firmware.len() == LOCK_ROM_SIZE,
        ChipType::MegaSD => true,
        _ => false,
    }
}

/// Makes the chip of a type. `rom_path` is where the MP3 player looks
/// for its tracks; `firmware` is the Game Genie's lock ROM, without
/// which there is no Game Genie. No chip is made for a cartridge
/// without one, nor for the types that this library only names.
pub fn create_chip(chip_type: ChipType, rom_path: &str, firmware: &[u8]) -> (r: Option<Chip>)
    ensures
        r is Some == creates(chip_type, firmware@),
        r matches Some(chip) ==> chip.wf() && chip.kind() == chip_type,
        r matches Some(Chip::GameGenie(g)) ==> g.cart is None && g.game_genie@ == (GenieState {
            enabled: true,
            lockrom: crate::chips::game_genie::lock_rom_of(firmware@),
            ..GenieState::initial()
        }),
        r matches Some(Chip::Yx5200(y)) ==> y@ == crate::chips::yx5200::PlayerState::initial(rom_path@),
        r matches Some(Chip::ActionReplay(a)) ==> a@ == crate::chips::action_replay::ReplayState::initial(),
{
    match chip_type {
        ChipType::SVP => Some(Chip::Svp(Box::new(SVP::new()))),
        ChipType::Yx5200 => Some(Chip::Yx5200(Yx5200::new(rom_path))),
        ChipType::ActionReplay => Some(Chip::ActionReplay(ActionReplay::new())),
        ChipType::GameGenie => {
            let mut handler = GameGenieMemoryHandler::new();
            if handler.game_genie.init(firmware) {
                Some(Chip::GameGenie(handler))
            } else {
                None
            }
        },
        ChipType::MegaSD => Some(Chip::MegaSD(MegaSDMemoryHandler::new())),
        _ => None,
    }
}

/// The first chip of a type at or after `from`, or the number of chips.
pub open spec fn first_of(chips: Seq<Chip>, chip_type: ChipType, from: int) -> int
    decreases chips.len() - from,
{
    if from >= chips.len() {
        chips.len() as int
    } else if chips[from].kind() == chip_type {
        from
    } else {
        first_of(chips, chip_type, from + 1)
    }
}

/// The types of the first `n` chips, in order.
pub open spec fn types_of(chips: Seq<Chip>, n: int) -> Seq<ChipType>
    decreases n,
{
    if n <= 0 {
        Seq::empty()
    } else {
        types_of(chips, n - 1).push(chips[n - 1].kind())
    }
}

/// The types of those of the first `n` chips that have an interrupt
/// pending, in order.
pub open spec fn irq_types_of(chips: Seq<Chip>, n: int) -> Seq<ChipType>
    decreases n,
{
    if n <= 0 {
        Seq::empty()
    } else if chips[n - 1].wants_irq() {
        irq_types_of(chips, n - 1).push(chips[n - 1].kind())
    } else {
        irq_types_of(chips, n - 1)
    }
}

/// The chips of a running system, one of which may be the active one.
pub struct ChipManager {
    chips: Vec<Chip>,
    active_chip_type: ChipType,
}

impl ChipManager {
    /// The chips, in the order in which they were added.
    pub closed spec fn chips(&self) -> Seq<Chip> {
        self.chips@
    }

    /// The type of the active chip.
    pub closed spec fn active(&self) -> ChipType {
        self.active_chip_type
    }

    /// Every chip meets its invariant.
    pub closed spec fn wf(&self) -> bool {
        forall|i: int| 0 <= i < self.chips@.len() ==> (#[trigger] self.chips@[i]).wf()
    }

    /// In a manager that meets its invariant every chip meets its own.
    pub proof fn lemma_chips_wf(&self, i: int)
        requires
            self.wf(),
            0 <= i < self.chips().len(),
        ensures
            self.chips()[i].wf(),
    {
    }

    /// A chip of the type is there.
    pub open spec fn holds(&self, chip_type: ChipType) -> bool {
        first_of(self.chips(), chip_type, 0) < self.chips().len()
    }

    pub fn new() -> (r: Self)
        ensures
            r.wf(),
            r.chips().len() == 0,
            r.active() == ChipType::NoChip,
    {
        ChipManager { chips: Vec::new(), active_chip_type: ChipType::NoChip }
    }

    pub fn add_chip(&mut self, chip: Chip)
        requires
            old(self).wf(),
            chip.wf(),
        ensures
            final(self).wf(),
            final(self).chips() == old(self).chips().push(chip),
            final(self).active() == old(self).active(),
    {
        self.chips.push(chip);
    }

    fn position(&self, chip_type: ChipType) -> (r: usize)
        ensures
            r == first_of(self.chips(), chip_type, 0),
            r <= self.chips().len(),
            r < self.chips().len() ==> self.chips()[r as int].kind() == chip_type,
    {
        let mut i: usize = 0;
        while i < self.chips.len()
            invariant
                i <= self.chips@.len(),
                first_of(self.chips@, chip_type, 0) == first_of(self.chips@, chip_type, i as int),
            decreases self.chips@.len() - i,
        {
            if self.chips[i].chip_type() == chip_type {
                return i;
            }
            i = i + 1;
        }
        i
    }

    /// Takes the first chip of a type out. If it was the active chip,
    /// no chip is active any more.
    pub fn remove_chip(&mut self, chip_type: ChipType) -> (r: Option<Chip>)
        requires
            old(self).wf(),
        ensures
            final(self).wf(),
            r is Some == old(self).holds(chip_type),
            !old(self).holds(chip_type) ==> final(self).chips() == old(self).chips() && final(self).active()
                == old(self).active(),
            old(self).holds(chip_type) ==> r == Some(
                old(self).chips()[first_of(old(self).chips(), chip_type, 0)],
            ) && final(self).chips() == old(self).chips().remove(first_of(old(self).chips(), chip_type, 0))
                && final(self).active() == (if old(self).active() == chip_type {
                ChipType::NoChip
            } else {
                old(self).active()
            }),
    {
        let pos = self.position(chip_type);
        if pos < self.chips.len() {
            let chip = self.chips.remove(pos);
            if self.active_chip_type == chip_type {
                self.active_chip_type = ChipType::NoChip;
            }
            Some(chip)
        } else {
            None
        }
    }

    /// The first chip of a type.
    pub fn get_chip(&self, chip_type: ChipType) -> (r: Option<&Chip>)
        ensures
            r is Some == self.holds(chip_type),
            r matches Some(chip) ==> *chip == self.chips()[first_of(self.chips(), chip_type, 0)] && chip.kind()
                == chip_type,
    {
        let pos = self.position(chip_type);
        if pos < self.chips.len() {
            Some(&self.chips[pos])
        } else {
            None
        }
    }

    /// The first chip of a type, to change. The manager then holds
    /// whatever the caller leaves in its place.
    pub fn get_chip_mut(&mut self, chip_type: ChipType) -> (r: Option<&mut Chip>)
        ensures
            r is Some == old(self).holds(chip_type),
            !old(self).holds(chip_type) ==> final(self).chips() == old(self).chips(),
            final(self).active() == old(self).active(),
            r matches Some(chip) ==> *chip == old(self).chips()[first_of(old(self).chips(), chip_type, 0)]
                && final(self).chips() == old(self).chips().update(
                first_of(old(self).chips(), chip_type, 0),
                *final(chip),
            ),
    {
        let pos = self.position(chip_type);
        if pos < self.chips.len() {
            Some(&mut self.chips[pos])
        } else {
            None
        }
    }

    /// Makes a type the active one; the chips stay as they are.
    pub fn set_active_chip(&mut self, chip_type: ChipType)
        ensures
            final(self).chips() == old(self).chips(),
            final(self).active() == chip_type,
            final(self).wf() == old(self).wf(),
    {
        self.active_chip_type = chip_type;
    }

    /// The first chip of the active type.
    pub fn get_active_chip(&self) -> (r: Option<&Chip>)
        ensures
            r is Some == self.holds(self.active()),
            r matches Some(chip) ==> *chip == self.chips()[first_of(self.chips(), self.active(), 0)] && chip.kind()
                == self.active(),
    {
        self.get_chip(self.active_chip_type)
    }

    /// The first chip of the active type, to change.
    pub fn get_active_chip_mut(&mut self) -> (r: Option<&mut Chip>)
        ensures
            r is Some == old(self).holds(old(self).active()),
            !old(self).holds(old(self).active()) ==> final(self).chips() == old(self).chips(),
            final(self).active() == old(self).active(),
            r matches Some(chip) ==> *chip == old(self).chips()[first_of(old(self).chips(), old(self).active(), 0)]
                && final(self).chips() == old(self).chips().update(
                first_of(old(self).chips(), old(self).active(), 0),
                *final(chip),
            ),
    {
        let chip_type = self.active_chip_type;
        self.get_chip_mut(chip_type)
    }

    pub fn has_chip(&self, chip_type: ChipType) -> (r: bool)
        ensures
            r == self.holds(chip_type),
    {
        self.position(chip_type) < self.chips.len()
    }

    /// The types of the chips, in order.
    pub fn get_chip_types(&self) -> (r: Vec<ChipType>)
        ensures
            r@ == types_of(self.chips(), self.chips().len() as int),
    {
        let mut types: Vec<ChipType> = Vec::new();
        let mut i: usize = 0;
        while i < self.chips.len()
            invariant
                i <= self.chips@.len(),
                types@ == types_of(self.chips@, i as int),
            decreases self.chips@.len() - i,
        {
            types.push(self.chips[i].chip_type());
            i = i + 1;
        }
        types
    }

    /// Resets every chip.
    pub fn reset_all(&mut self)
        requires
            old(self).wf(),
        ensures
            final(self).wf(),
            final(self).active() == old(self).active(),
            final(self).chips().len() == old(self).chips().len(),
            forall|i: int| 0 <= i < old(self).chips().len() ==> old(self).chips()[i].resets_to(#[trigger] final(self).chips()[i]),
    {
        let mut i: usize = 0;
        while i < self.chips.len()
            invariant
                i <= self.chips@.len(),
                self.wf(),
                old(self).wf(),
                self.active_chip_type == old(self).active_chip_type,
                self.chips@.len() == old(self).chips@.len(),
                forall|j: int| 0 <= j < i ==> old(self).chips@[j].resets_to(#[trigger] self.chips@[j]),
                forall|j: int| i <= j < self.chips@.len() ==> self.chips@[j] == old(self).chips@[j],
            decreases self.chips@.len() - i,
        {
            self.chips[i].reset();
            i = i + 1;
        }
    }

    /// Runs every chip for `cycles` clocks.
    pub fn update_all(&mut self, cycles: u32)
        requires
            old(self).wf(),
        ensures
            final(self).wf(),
            final(self).active() == old(self).active(),
            final(self).chips().len() == old(self).chips().len(),
            forall|i: int| 0 <= i < old(self).chips().len() ==> old(self).chips()[i].updates_to(cycles, #[trigger] final(self).chips()[i]),
    {
        let mut i: usize = 0;
        while i < self.chips.len()
            invariant
                i <= self.chips@.len(),
                self.wf(),
                old(self).wf(),
                self.active_chip_type == old(self).active_chip_type,
                self.chips@.len() == old(self).chips@.len(),
                forall|j: int| 0 <= j < i ==> old(self).chips@[j].updates_to(cycles, #[trigger] self.chips@[j]),
                forall|j: int| i <= j < self.chips@.len() ==> self.chips@[j] == old(self).chips@[j],
            decreases self.chips@.len() - i,
        {
            self.chips[i].update(cycles);
            i = i + 1;
        }
    }

    /// The types of the chips that have an interrupt pending, in order.
    pub fn check_irqs(&self) -> (r: Vec<ChipType>)
        requires
            self.wf(),
        ensures
            r@ == irq_types_of(self.chips(), self.chips().len() as int),
    {
        let mut types: Vec<ChipType> = Vec::new();
        let mut i: usize = 0;
        while i < self.chips.len()
            invariant
                i <= self.chips@.len(),
                self.wf(),
                types@ == irq_types_of(self.chips@, i as int),
            decreases self.chips@.len() - i,
        {
            if self.chips[i].irq_pending() {
                types.push(self.chips[i].chip_type());
            }
            i = i + 1;
        }
        types
    }
}

impl ChipManager {
    /// A manager without chips.
    pub fn default() -> (r: Self)
        ensures
            r.wf(),
            r.chips().len() == 0,
            r.active() == ChipType::NoChip,
    {
        ChipManager::new()
    }
}

} // verus!
