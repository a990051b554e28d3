//! The Sega Virtua Processor: a RISC core, its DMA engine, a texture unit
//! and a rasterizer behind one host-facing register and memory window.

use std::sync::Arc;
use vstd::prelude::*;
use crate::bits::{hi_byte, high_byte, lo_byte, low_byte, make_word, word_of};
use crate::chips::ChipType;
use crate::memory::bus::MemoryBus;
use crate::svp::dma::{direction_to, dram_after, texram_after, DmaState, SVPDmaController};
use crate::svp::fixed::ONE;
use crate::svp::geometry::Vertex;
use crate::svp::map::{chip_addr, decode, is_mapped, mask_address, region_of, Region, DRAM_WORDS, REG_COUNT, TEXRAM_BYTES};
use crate::svp::processor::{ProcessorState, RenderCmdType, RenderCommand, RenderCommandView, SVPProcessor};
use crate::svp::renderer::{RendererState, SVPRenderer};
use crate::svp::texture_unit::{invalidated_slots, TextureUnit, UnitState};
use crate::svp::texture_cache::CacheState;

pub mod camera;
pub mod dma;
pub mod fixed;
pub mod framebuffer;
pub mod geometry;
pub mod map;
pub mod processor;
pub mod raster;
pub mod renderer;
pub mod texture;
pub mod texture_cache;
pub mod texture_unit;

verus! {

/// First word of working memory that feeds the command buffer.
pub const CMD_WINDOW_FIRST: usize = 0x100;

/// First word of working memory past the command-buffer window.
pub const CMD_WINDOW_END: usize = 0x180;

/// Bytes of a snapshot: three flags, sixteen registers, working memory.
pub const SNAPSHOT_BYTES: usize = 3 + 2 * 16 + 2 * 8192;

/// Value read where nothing is mapped, as a word.
pub const OPEN_BUS_WORD: u16 = 0x0000;

/// The chip as contracts see it.
pub struct SvpState {
    pub processor: ProcessorState,
    pub dma: DmaState,
    pub texture_unit: UnitState,
    pub renderer: RendererState,
    pub dram: Seq<u16>,
    pub texram: Seq<u8>,
    pub regs: Seq<u16>,
    pub enabled: bool,
    pub running: bool,
    pub irq_pending: bool,
    pub bus: Option<Arc<MemoryBus>>,
}

/// A flag as a snapshot stores it.
pub open spec fn flag_byte(b: bool) -> u8 {
    if b {
        1
    } else {
        0
    }
}

/// Byte `i` of the words `words` stored little-endian.
pub open spec fn words_byte(words: Seq<u16>, i: int) -> u8 {
    if i % 2 == 0 {
        lo_byte(words[i / 2])
    } else {
        hi_byte(words[i / 2])
    }
}

/// Word `k` of little-endian words stored from byte `base` of `data`.
pub open spec fn bytes_word(data: Seq<u8>, base: int, k: int) -> u16 {
    word_of(data[base + 2 * k], data[base + 2 * k + 1])
}

/// The vertex that a render command's screen position stands for: at
/// depth 0, full intensity, no texture offset.
pub open spec fn command_vertex(p: (i16, i16), color: u16) -> Vertex {
    Vertex { x: (p.0 * 0x1_0000) as i32, y: (p.1 * 0x1_0000) as i32, z: 0, w: ONE, u: 0, v: 0, color, intensity: ONE }
}

pub open spec fn command_vertices(cmd: RenderCommandView) -> Seq<Vertex> {
    Seq::new(4, |i: int| command_vertex(cmd.vertices[i], cmd.color))
}

impl SvpState {
    /// The chip after the pending render command was served: a polygon
    /// is drawn with the texture unit as it stands, a line between the
    /// first two vertices, a clear clears, and an unknown command is
    /// dropped. Without a pending command nothing changes.
    pub open spec fn rendered(self) -> SvpState {
        if !self.processor.cmd_ready {
            self
        } else {
            let cmd = self.processor.current_cmd->0;
            SvpState {
                processor: ProcessorState { cmd_ready: false, current_cmd: None, ..self.processor },
                renderer: match cmd.cmd_type {
                    RenderCmdType::DrawPolygon => self.renderer.polygon_drawn(
                        command_vertices(cmd),
                        self.texture_unit,
                        cmd.color,
                    ),
                    RenderCmdType::DrawLine => self.renderer.line_drawn(
                        command_vertices(cmd)[0],
                        command_vertices(cmd)[1],
                        cmd.color,
                    ),
                    RenderCmdType::ClearFrame => self.renderer.cleared(),
                    RenderCmdType::Unknown => self.renderer,
                },
                ..self
            }
        }
    }

    /// The chip with the core's interrupt line latched.
    pub open spec fn with_irq(self) -> SvpState {
        SvpState { irq_pending: self.irq_pending || self.processor.irq_asserted, ..self }
    }

    /// The chip after the core's cycle and the DMA unit of a clock.
    pub open spec fn moved(self) -> SvpState {
        (SvpState { processor: self.processor.cycled(), ..self }).after_dma()
    }

    /// The chip one clock later: the core runs a cycle, the DMA engine
    /// moves a unit, the pending render command is served and the
    /// interrupt line is latched. A chip that is disabled or not running
    /// stays as it is.
    pub open spec fn ticked(self) -> SvpState {
        if !(self.enabled && self.running) {
            self
        } else {
            self.moved().rendered().with_irq()
        }
    }

    /// The chip `n` clocks later.
    pub open spec fn after_ticks(self, n: nat) -> SvpState
        decreases n,
    {
        if n == 0 {
            self
        } else {
            self.after_ticks((n - 1) as nat).ticked()
        }
    }

    pub open spec fn valid(self) -> bool {
        &&& self.processor.valid()
        &&& self.dma.valid()
        &&& self.texture_unit.valid()
        &&& self.dram.len() == DRAM_WORDS
        &&& self.texram.len() == TEXRAM_BYTES
        &&& self.regs.len() == REG_COUNT
    }

    /// The snapshot of the chip: the enabled, running and interrupt
    /// flags, the sixteen registers and working memory, words
    /// little-endian.
    pub open spec fn snapshot(self) -> Seq<u8> {
        Seq::new(
            SNAPSHOT_BYTES as nat,
            |i: int|
                if i == 0 {
                    flag_byte(self.enabled)
                } else if i == 1 {
                    flag_byte(self.running)
                } else if i == 2 {
                    flag_byte(self.irq_pending)
                } else if i < 35 {
                    words_byte(self.regs, i - 3)
                } else {
                    words_byte(self.dram, i - 35)
                },
        )
    }

    /// The chip after a snapshot was loaded: flags, registers and working
    /// memory are the snapshot's; everything else stays.
    pub open spec fn restored(self, data: Seq<u8>) -> SvpState {
        SvpState {
            enabled: data[0] != 0,
            running: data[1] != 0,
            irq_pending: data[2] != 0,
            regs: Seq::new(REG_COUNT as nat, |k: int| bytes_word(data, 3, k)),
            dram: Seq::new(DRAM_WORDS as nat, |k: int| bytes_word(data, 35, k)),
            ..self
        }
    }

    /// The word read at a chip address: working memory, texture memory
    /// (two bytes, little-endian; the last byte alone has no word),
    /// registers, cartridge ROM through the host bus, and the open-bus
    /// word everywhere else and where no bus is connected.
    pub open spec fn word_at(self, a: u32) -> u16 {
        match region_of(a) {
            Region::Dram(i) => self.dram[i as int],
            Region::TexRam(off) => if off + 1 < TEXRAM_BYTES {
                word_of(self.texram[off as int], self.texram[off as int + 1])
            } else {
                OPEN_BUS_WORD
            },
            Region::Register(i) => self.regs[i as int],
            Region::Rom => match self.bus {
                Some(bus) => bus.word_at(a),
                None => OPEN_BUS_WORD,
            },
            Region::Unmapped => OPEN_BUS_WORD,
        }
    }

    /// The chip in its reset state: every memory and register zero, the
    /// core and the DMA engine reinitialized, the texture unit emptied,
    /// the renderer's buffers and statistics cleared, the chip disabled.
    /// Only the connection to the host bus stays.
    pub open spec fn after_reset(self) -> SvpState {
        SvpState {
            processor: ProcessorState::initial(),
            dma: DmaState::idle(),
            texture_unit: UnitState::initial(),
            renderer: self.renderer.cleared().without_stats(),
            dram: Seq::new(DRAM_WORDS as nat, |i: int| 0u16),
            texram: Seq::new(TEXRAM_BYTES as nat, |i: int| 0u8),
            regs: Seq::new(REG_COUNT as nat, |i: int| 0u16),
            enabled: false,
            running: false,
            irq_pending: false,
            bus: self.bus,
        }
    }

    /// The chip after a write to the control register: bit 0 starts and
    /// stops the core, bit 15 resets the chip and stays set.
    pub open spec fn after_control(self, value: u16) -> SvpState {
        let run = value % 2 == 1;
        let stored = SvpState { regs: self.regs.update(0, value), running: run, ..self };
        let switched = if !self.running && run {
            SvpState { processor: stored.processor.started(), ..stored }
        } else if self.running && !run {
            SvpState { processor: stored.processor.stopped(), ..stored }
        } else {
            stored
        };
        if value >= 0x8000 {
            let r = switched.after_reset();
            SvpState { regs: r.regs.update(0, 0x8000u16), ..r }
        } else {
            switched
        }
    }

    /// The chip after a write to a register: 0 is control, 1 the DMA
    /// source, 2 the DMA destination, 3 the DMA length with the start
    /// bit on top, 4 acknowledges the interrupt; the rest only store.
    pub open spec fn after_register_write(self, reg: int, value: u16) -> SvpState {
        let stored = SvpState { regs: self.regs.update(reg, value), ..self };
        if reg == 0 {
            self.after_control(value)
        } else if reg == 1 {
            SvpState { dma: DmaState { src: chip_addr(value as u32), ..self.dma }, ..stored }
        } else if reg == 2 {
            SvpState {
                dma: DmaState {
                    dst: chip_addr(value as u32),
                    direction: direction_to(chip_addr(value as u32)),
                    ..self.dma
                },
                ..stored
            }
        } else if reg == 3 {
            let length = value & 0x7FFF;
            let sized = DmaState { length, active: self.dma.active && length != 0, ..self.dma };
            if value >= 0x8000 {
                SvpState { dma: DmaState { active: length != 0, ..sized }, ..stored }
            } else {
                SvpState { dma: sized, ..stored }
            }
        } else if reg == 4 {
            if value % 2 == 1 {
                SvpState {
                    irq_pending: false,
                    processor: ProcessorState { irq_asserted: false, ..self.processor },
                    ..stored
                }
            } else {
                stored
            }
        } else {
            stored
        }
    }

    /// The chip after a word was written at a chip address. Writes to
    /// ROM and to unmapped addresses do nothing; a word stored in the
    /// command window of working memory also enters the command buffer.
    pub open spec fn after_write(self, a: u32, value: u16) -> SvpState {
        match region_of(a) {
            Region::Dram(i) => {
                let stored = SvpState { dram: self.dram.update(i as int, value), ..self };
                if CMD_WINDOW_FIRST <= i < CMD_WINDOW_END {
                    SvpState { processor: self.processor.with_command_word(value), ..stored }
                } else {
                    stored
                }
            },
            Region::TexRam(off) => if off + 1 < TEXRAM_BYTES {
                SvpState {
                    texram: self.texram.update(off as int, lo_byte(value)).update(off as int + 1, hi_byte(value)),
                    ..self
                }
            } else {
                self
            },
            Region::Register(i) => self.after_register_write(i as int, value),
            Region::Rom => self,
            Region::Unmapped => self,
        }
    }

    /// The chip after the DMA part of a tick: textures that the unit
    /// about to be stored makes stale are evicted, then the unit moves.
    pub open spec fn after_dma(self) -> SvpState {
        if !self.dma.active {
            self
        } else {
            SvpState {
                texture_unit: if self.dma.writes_texram() {
                    UnitState {
                        cache: CacheState {
                            slots: invalidated_slots(self.texture_unit.cache.slots, self.dma.texram_offset(), 2),
                            ..self.texture_unit.cache
                        },
                        ..self.texture_unit
                    }
                } else {
                    self.texture_unit
                },
                dma: self.dma.step(),
                dram: dram_after(self.dma, self.dram, self.texram),
                texram: texram_after(self.dma, self.dram, self.texram),
                ..self
            }
        }
    }
}

pub struct SVP {
    processor: SVPProcessor,
    dma: SVPDmaController,
    texture_unit: TextureUnit,
    renderer: SVPRenderer,
    dram: [u16; 8192],
    texram: [u8; 131072],
    regs: [u16; 16],
    enabled: bool,
    running: bool,
    irq_pending: bool,
    bus: Option<Arc<MemoryBus>>,
}

impl View for SVP {
    type V = SvpState;

    closed spec fn view(&self) -> SvpState {
        SvpState {
            processor: self.processor@,
            dma: self.dma@,
            texture_unit: self.texture_unit@,
            renderer: self.renderer@,
            dram: self.dram@,
            texram: self.texram@,
            regs: self.regs@,
            enabled: self.enabled,
            running: self.running,
            irq_pending: self.irq_pending,
            bus: self.bus,
        }
    }
}

impl SVP {
    pub closed spec fn wf(&self) -> bool {
        self.processor.wf() && self.dma.wf() && self.texture_unit.wf() && self.renderer.wf()
    }

    pub proof fn lemma_wf_valid(&self)
        requires
            self.wf(),
        ensures
            self@.valid(),
    {
    }

    /// A chip after power-on: disabled, halted, every memory zero, no
    /// host bus connected.
    pub fn new() -> (r: Self)
        ensures
            r.wf(),
            r@.valid(),
            r@.processor == ProcessorState::initial(),
            r@.dma == DmaState::idle(),
            r@.texture_unit == UnitState::initial(),
            r@.dram == Seq::new(DRAM_WORDS as nat, |i: int| 0u16),
            r@.texram == Seq::new(TEXRAM_BYTES as nat, |i: int| 0u8),
            r@.regs == Seq::new(REG_COUNT as nat, |i: int| 0u16),
            !r@.enabled,
            !r@.running,
            !r@.irq_pending,
            r@.bus is None,
    {
        let r = SVP {
            processor: SVPProcessor::new(),
            dma: SVPDmaController::new(),
            texture_unit: TextureUnit::new(),
            renderer: SVPRenderer::new(),
            dram: [0; 8192],
            texram: [0; 131072],
            regs: [0; 16],
            enabled: false,
            running: false,
            irq_pending: false,
            bus: None,
        };
        assert(r@.dram =~= Seq::new(DRAM_WORDS as nat, |i: int| 0u16));
        assert(r@.texram =~= Seq::new(TEXRAM_BYTES as nat, |i: int| 0u8));
        assert(r@.regs =~= Seq::new(REG_COUNT as nat, |i: int| 0u16));
        r
    }

    /// Connects the host bus, through which cartridge ROM is read.
    pub fn connect_bus(&mut self, bus: Arc<MemoryBus>)
        requires
            old(self).wf(),
        ensures
            final(self).wf(),
            final(self)@ == (SvpState { bus: Some(bus), ..old(self)@ }),
    {
        self.bus = Some(bus);
    }

    pub fn reset(&mut self)
        requires
            old(self).wf(),
        ensures
            final(self).wf(),
            final(self)@ == old(self)@.after_reset(),
    {
        self.processor.reset();
        self.dma.reset();
        self.texture_unit.reset();
        self.renderer.reset();
        self.dram = [0; 8192];
        self.texram = [0; 131072];
        self.regs = [0; 16];
        self.enabled = false;
        self.running = false;
        self.irq_pending = false;
        assert(self@.dram =~= Seq::new(DRAM_WORDS as nat, |i: int| 0u16));
        assert(self@.texram =~= Seq::new(TEXRAM_BYTES as nat, |i: int| 0u8));
        assert(self@.regs =~= Seq::new(REG_COUNT as nat, |i: int| 0u16));
    }

    /// Enables or disables the chip. Enabling raises bit 15 of the status
    /// register.
    pub fn set_enabled(&mut self, enabled: bool)
        requires
            old(self).wf(),
        ensures
            final(self).wf(),
            final(self)@ == (SvpState {
                enabled,
                regs: if enabled {
                    old(self)@.regs.update(0, 0x8000u16)
                } else {
                    old(self)@.regs
                },
                ..old(self)@
            }),
    {
        self.enabled = enabled;
        if enabled {
            self.regs[0] = 0x8000;
        }
    }

    /// One chip clock: at most one instruction, one DMA unit and one
    /// render command. A chip that is disabled or not running does
    /// nothing.
    pub fn tick(&mut self)
        requires
            old(self).wf(),
        ensures
            final(self).wf(),
            final(self)@ == old(self)@.ticked(),
    {
        if !self.enabled || !self.running {
            return;
        }
        self.processor.execute_cycle();
        if self.dma.is_active() {
            self.texture_unit.process_dma_transfer(&self.dma);
            self.dma.transfer_cycle(&mut self.dram, &mut self.texram);
        }
        if self.processor.render_command_ready() {
            self.process_render_command();
        }
        if self.processor.irq_asserted() {
            self.irq_pending = true;
            self.signal_irq();
        }
    }

    /// Reads a word of the chip's address space.
    pub fn read_word(&self, addr: u32) -> (r: u16)
        requires
            self.wf(),
        ensures
            r == self@.word_at(chip_addr(addr)),
            !is_mapped(chip_addr(addr)) ==> r == OPEN_BUS_WORD,
    {
        let svp_addr = mask_address(addr);
        match decode(svp_addr) {
            Region::Dram(index) => self.dram[index],
            Region::TexRam(off) => {
                if off + 1 < TEXRAM_BYTES {
                    make_word(self.texram[off], self.texram[off + 1])
                } else {
                    OPEN_BUS_WORD
                }
            },
            Region::Register(reg) => self.regs[reg],
            Region::Rom => match &self.bus {
                Some(bus) => bus.read_word(svp_addr),
                None => OPEN_BUS_WORD,
            },
            Region::Unmapped => OPEN_BUS_WORD,
        }
    }

    /// Writes a word of the chip's address space.
    pub fn write_word(&mut self, addr: u32, value: u16)
        requires
            old(self).wf(),
        ensures
            final(self).wf(),
            final(self)@ == old(self)@.after_write(chip_addr(addr), value),
            !is_mapped(chip_addr(addr)) ==> final(self)@ == old(self)@,
    {
        let svp_addr = mask_address(addr);
        match decode(svp_addr) {
            Region::Dram(index) => {
                self.dram[index] = value;
                if CMD_WINDOW_FIRST <= index && index < CMD_WINDOW_END {
                    self.processor.write_command_buffer(value);
                }
            },
            Region::TexRam(off) => {
                if off + 1 < TEXRAM_BYTES {
                    self.texram[off] = low_byte(value);
                    self.texram[off + 1] = high_byte(value);
                }
            },
            Region::Register(reg) => {
                self.write_register(reg, value);
            },
            Region::Rom => {},
            Region::Unmapped => {},
        }
    }

    fn write_register(&mut self, reg: usize, value: u16)
        requires
            old(self).wf(),
            reg < REG_COUNT,
        ensures
            final(self).wf(),
            final(self)@ == old(self)@.after_register_write(reg as int, value),
    {
        self.regs[reg] = value;
        if reg == 0 {
            let old_running = self.running;
            self.running = value % 2 == 1;
            if !old_running && self.running {
                self.processor.start();
            } else if old_running && !self.running {
                self.processor.stop();
            }
            if value >= 0x8000 {
                self.reset();
                self.regs[0] = 0x8000;
            }
        } else if reg == 1 {
            self.dma.set_source(value as u32);
        } else if reg == 2 {
            self.dma.set_destination(value as u32);
        } else if reg == 3 {
            self.dma.set_length(value);
            if value >= 0x8000 {
                self.dma.start();
            }
        } else if reg == 4 {
            if value % 2 == 1 {
                self.irq_pending = false;
                self.processor.clear_irq();
            }
        }
    }

    /// The pixels shown, 320 by 224, row by row, 5-5-5.
    pub fn get_frame_buffer(&self) -> (r: &Vec<u16>)
        ensures
            r@ == self@.renderer.framebuffer.front,
    {
        self.renderer.get_frame_buffer()
    }

    /// Hands the pending render command to the renderer: a polygon is
    /// drawn with the texture that is bound, a line between the first
    /// two vertices, a clear clears; an unknown command is dropped.
    fn process_render_command(&mut self)
        requires
            old(self).wf(),
        ensures
            final(self).wf(),
            final(self)@ == old(self)@.rendered(),
    {
        match self.processor.get_render_command() {
            Some(cmd) => {
                let vertices = render_vertices(&cmd);
                match cmd.cmd_type {
                    RenderCmdType::DrawPolygon => {
                        self.renderer.draw_polygon(&vertices, &self.texture_unit, cmd.texture_id, cmd.color);
                    },
                    RenderCmdType::DrawLine => {
                        self.renderer.draw_line(vertices[0], vertices[1], cmd.color);
                    },
                    RenderCmdType::ClearFrame => {
                        self.renderer.clear();
                    },
                    RenderCmdType::Unknown => {},
                }
                self.processor.command_completed();
            },
            None => {},
        }
    }

    /// The interrupt line to the 68000 is the host's to drive: it polls
    /// `irq_pending`.
    fn signal_irq(&self) {
    }

    pub fn irq_pending(&self) -> (r: bool)
        ensures
            r == self@.irq_pending,
    {
        self.irq_pending
    }

    pub fn init(&mut self)
        ensures
            *final(self) == *old(self),
    {
    }

    /// Runs `cycles` chip clocks.
    #[verifier::rlimit(40)]
    pub fn update(&mut self, cycles: u32)
        requires
            old(self).wf(),
        ensures
            final(self).wf(),
            final(self)@ == old(self)@.after_ticks(cycles as nat),
    {
        let mut i: u32 = 0;
        while i < cycles
            invariant
                i <= cycles,
                self.wf(),
                self@ == old(self)@.after_ticks(i as nat),
            decreases cycles - i,
        {
            self.tick();
            proof {
                lemma_one_more_tick(old(self)@, i as nat);
            }
            i = i + 1;
        }
    }

    /// Writes the snapshot of the chip.
    pub fn save_state(&self) -> (state: Vec<u8>)
        requires
            self.wf(),
        ensures
            state@ == self@.snapshot(),
    {
        let mut state: Vec<u8> = Vec::new();
        state.push(if self.enabled { 1 } else { 0 });
        state.push(if self.running { 1 } else { 0 });
        state.push(if self.irq_pending { 1 } else { 0 });
        let mut i: usize = 0;
        while i < REG_COUNT
            invariant
                i <= REG_COUNT,
                state@.len() == 3 + 2 * i,
                forall|j: int| 0 <= j < 3 + 2 * i ==> state@[j] == self@.snapshot()[j],
            decreases REG_COUNT - i,
        {
            state.push(low_byte(self.regs[i]));
            state.push(high_byte(self.regs[i]));
            i = i + 1;
        }
        let mut k: usize = 0;
        while k < DRAM_WORDS
            invariant
                k <= DRAM_WORDS,
                state@.len() == 35 + 2 * k,
                forall|j: int| 0 <= j < 35 + 2 * k ==> state@[j] == self@.snapshot()[j],
            decreases DRAM_WORDS - k,
        {
            state.push(low_byte(self.dram[k]));
            state.push(high_byte(self.dram[k]));
            k = k + 1;
        }
        assert(state@ =~= self@.snapshot());
        state
    }

    /// Loads a snapshot. One shorter than a snapshot is refused before
    /// anything is changed.
    pub fn load_state(&mut self, data: &[u8]) -> (ok: bool)
        requires
            old(self).wf(),
        ensures
            final(self).wf(),
            ok == (data@.len() >= SNAPSHOT_BYTES),
            ok ==> final(self)@ == old(self)@.restored(data@),
            !ok ==> final(self)@ == old(self)@,
    {
        if data.len() < SNAPSHOT_BYTES {
            return false;
        }
        self.enabled = data[0] != 0;
        self.running = data[1] != 0;
        self.irq_pending = data[2] != 0;
        let mut i: usize = 0;
        while i < REG_COUNT
            invariant
                i <= REG_COUNT,
                data@.len() >= SNAPSHOT_BYTES,
                self.wf(),
                self@ == (SvpState {
                    regs: self@.regs,
                    enabled: data@[0] != 0,
                    running: data@[1] != 0,
                    irq_pending: data@[2] != 0,
                    ..old(self)@
                }),
                forall|j: int| 0 <= j < i ==> self@.regs[j] == bytes_word(data@, 3, j),
            decreases REG_COUNT - i,
        {
            self.regs[i] = make_word(data[3 + 2 * i], data[3 + 2 * i + 1]);
            i = i + 1;
        }
        let mut k: usize = 0;
        while k < DRAM_WORDS
            invariant
                k <= DRAM_WORDS,
                data@.len() >= SNAPSHOT_BYTES,
                self.wf(),
                self@ == (SvpState {
                    regs: self@.regs,
                    dram: self@.dram,
                    enabled: data@[0] != 0,
                    running: data@[1] != 0,
                    irq_pending: data@[2] != 0,
                    ..old(self)@
                }),
                forall|j: int| 0 <= j < REG_COUNT ==> self@.regs[j] == bytes_word(data@, 3, j),
                forall|j: int| 0 <= j < k ==> self@.dram[j] == bytes_word(data@, 35, j),
            decreases DRAM_WORDS - k,
        {
            self.dram[k] = make_word(data[35 + 2 * k], data[35 + 2 * k + 1]);
            k = k + 1;
        }
        assert(self@.regs =~= old(self)@.restored(data@).regs);
        assert(self@.dram =~= old(self)@.restored(data@).dram);
        true
    }

    pub fn chip_type(&self) -> (t: ChipType)
        ensures
            t == ChipType::SVP,
    {
        ChipType::SVP
    }

    pub fn get_type(&self) -> (t: ChipType)
        ensures
            t == ChipType::SVP,
    {
        ChipType::SVP
    }

    /// Reads a byte: the low byte of the word at an even address, the
    /// high byte at an odd one.
    pub fn read_byte(&self, addr: u32) -> (r: u8)
        requires
            self.wf(),
        ensures
            r == (if addr % 2 == 0 {
                lo_byte(self@.word_at(chip_addr((addr - addr % 2) as u32)))
            } else {
                hi_byte(self@.word_at(chip_addr((addr - addr % 2) as u32)))
            }),
            !is_mapped(chip_addr((addr - addr % 2) as u32)) ==> r == 0,
    {
        let word = self.read_word(addr - addr % 2);
        if addr % 2 == 0 {
            low_byte(word)
        } else {
            high_byte(word)
        }
    }

    /// Writes a byte: the word at the even address is read, one byte of
    /// it replaced, and the word written back.
    pub fn write_byte(&mut self, addr: u32, value: u8)
        requires
            old(self).wf(),
        ensures
            final(self).wf(),
            final(self)@ == old(self)@.after_write(
                chip_addr((addr - addr % 2) as u32),
                if addr % 2 == 0 {
                    word_of(value, hi_byte(old(self)@.word_at(chip_addr((addr - addr % 2) as u32))))
                } else {
                    word_of(lo_byte(old(self)@.word_at(chip_addr((addr - addr % 2) as u32))), value)
                },
            ),
            !is_mapped(chip_addr((addr - addr % 2) as u32)) ==> final(self)@ == old(self)@,
    {
        let word_addr: u32 = addr - addr % 2;
        let current = self.read_word(word_addr);
        let new_word = if addr % 2 == 0 {
            make_word(value, high_byte(current))
        } else {
            make_word(low_byte(current), value)
        };
        self.write_word(word_addr, new_word);
    }

    pub fn get_render_command(&mut self) -> (r: Option<RenderCommand>)
        requires
            old(self).wf(),
        ensures
            final(self).wf(),
            old(self)@.processor.cmd_ready ==> r is Some && Some(r->0@) == old(self)@.processor.current_cmd
                && final(self)@ == (SvpState {
                processor: ProcessorState { cmd_ready: false, current_cmd: None, ..old(self)@.processor },
                ..old(self)@
            }),
            !old(self)@.processor.cmd_ready ==> r is None && final(self)@ == old(self)@,
    {
        self.processor.get_render_command()
    }

    pub fn command_completed(&mut self)
        requires
            old(self).wf(),
        ensures
            final(self).wf(),
            final(self)@ == (SvpState {
                processor: ProcessorState { cmd_ready: false, ..old(self)@.processor },
                ..old(self)@
            }),
    {
        self.processor.command_completed();
    }

    pub fn render_command_ready(&self) -> (r: bool)
        ensures
            r == self@.processor.cmd_ready,
    {
        self.processor.render_command_ready()
    }

    pub fn write_command_buffer(&mut self, value: u16)
        requires
            old(self).wf(),
        ensures
            final(self).wf(),
            final(self)@ == (SvpState { processor: old(self)@.processor.with_command_word(value), ..old(self)@ }),
    {
        self.processor.write_command_buffer(value);
    }

    /// The DMA engine, to query.
    pub fn dma(&self) -> (r: &SVPDmaController)
        ensures
            r@ == self@.dma,
    {
        &self.dma
    }

    /// The texture unit, to query.
    pub fn texture_unit(&self) -> (r: &TextureUnit)
        ensures
            r@ == self@.texture_unit,
    {
        &self.texture_unit
    }

    /// The renderer, to query.
    pub fn renderer(&self) -> (r: &SVPRenderer)
        ensures
            r@ == self@.renderer,
    {
        &self.renderer
    }
}

/// The chip after `n + 1` clocks is the chip after `n` clocks, one
/// clock later.
pub proof fn lemma_one_more_tick(s: SvpState, n: nat)
    ensures
        s.after_ticks(n + 1) == s.after_ticks(n).ticked(),
{
    assert(((n + 1) - 1) as nat == n);
}

/// The four vertices of a render command.
pub fn render_vertices(cmd: &RenderCommand) -> (v: Vec<Vertex>)
    ensures
        v@ == command_vertices(cmd@),
{
    let mut v: Vec<Vertex> = Vec::new();
    let mut i: usize = 0;
    while i < 4
        invariant
            i <= 4,
            v@.len() == i,
            forall|j: int| 0 <= j < i ==> v@[j] == command_vertex(cmd.vertices[j], cmd.color),
        decreases 4 - i,
    {
        let p = cmd.vertices[i];
        v.push(
            Vertex {
                x: (p.0 as i32) * 0x1_0000,
                y: (p.1 as i32) * 0x1_0000,
                z: 0,
                w: ONE,
                u: 0,
                v: 0,
                color: cmd.color,
                intensity: ONE,
            },
        );
        i = i + 1;
    }
    assert(v@ =~= command_vertices(cmd@));
    v
}

/// Saving a chip and loading the snapshot into another gives that other
/// the flags, the registers and the working memory of the first. The
/// DMA engine, which a snapshot does not hold, stays as the loading chip
/// had it: it is that of the first where the two agreed before.
pub proof fn lemma_snapshot_round_trip(saved: SvpState, fresh: SvpState)
    requires
        saved.valid(),
        fresh.valid(),
    ensures
        fresh.restored(saved.snapshot()).enabled == saved.enabled,
        fresh.restored(saved.snapshot()).running == saved.running,
        fresh.restored(saved.snapshot()).irq_pending == saved.irq_pending,
        fresh.restored(saved.snapshot()).regs == saved.regs,
        fresh.restored(saved.snapshot()).dram == saved.dram,
        fresh.restored(saved.snapshot()).dma == fresh.dma,
        saved.dma == fresh.dma ==> fresh.restored(saved.snapshot()).dma == saved.dma,
{
    let data = saved.snapshot();
    let r = fresh.restored(data);
    assert forall|k: int| 0 <= k < REG_COUNT implies r.regs[k] == saved.regs[k] by {
        assert(data[3 + 2 * k] == lo_byte(saved.regs[k]));
        assert(data[3 + 2 * k + 1] == hi_byte(saved.regs[k]));
    }
    assert forall|k: int| 0 <= k < DRAM_WORDS implies r.dram[k] == saved.dram[k] by {
        assert(data[35 + 2 * k] == lo_byte(saved.dram[k]));
        assert(data[35 + 2 * k + 1] == hi_byte(saved.dram[k]));
    }
    assert(r.regs =~= saved.regs);
    assert(r.dram =~= saved.dram);
}

/// Outside the four windows a read gives the open-bus word whatever the
/// state of the chip, and a write leaves the chip as it was.
pub proof fn lemma_unmapped_access(s: SvpState, a: u32, value: u16)
    requires
        !is_mapped(a),
    ensures
        s.word_at(a) == OPEN_BUS_WORD,
        s.after_write(a, value) == s,
{
}

} // verus!
