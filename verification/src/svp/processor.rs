//! The RISC core: a register file, a three-stage pipeline shadow, a small
//! instruction window and a single-slot render-command handshake.

use vstd::prelude::*;

verus! {

/// Words in the local instruction window.
pub const CODE_WORDS: usize = 2048;

/// Entries in the circular command buffer.
pub const CMD_SLOTS: usize = 128;

/// Program counter after `start`.
pub const ENTRY_POINT: u32 = 0;

#[derive(Clone, Copy, Debug, PartialEq, Eq, Structural)]
pub enum RenderCmdType {
    DrawPolygon,
    DrawLine,
    ClearFrame,
    Unknown,
}

/// A render request as the core hands it to the renderer.
#[derive(Clone, Copy, Debug)]
pub struct RenderCommand {
    pub cmd_type: RenderCmdType,
    pub vertices: [(i16, i16); 4],
    pub texture_id: u8,
    pub color: u16,
    pub z_depth: u8,
}

/// A render request with its vertex list as a sequence.
pub struct RenderCommandView {
    pub cmd_type: RenderCmdType,
    pub vertices: Seq<(i16, i16)>,
    pub texture_id: u8,
    pub color: u16,
    pub z_depth: u8,
}

impl View for RenderCommand {
    type V = RenderCommandView;

    open spec fn view(&self) -> RenderCommandView {
        RenderCommandView {
            cmd_type: self.cmd_type,
            vertices: self.vertices@,
            texture_id: self.texture_id,
            color: self.color,
            z_depth: self.z_depth,
        }
    }
}

/// Bits 12 to 15 of an instruction word.
pub open spec fn opcode_of(instr: u32) -> u32 {
    (instr / 0x1000) % 16
}

/// Bits 8 to 11: the destination register, or the subtype of a render trigger.
pub open spec fn rd_of(instr: u32) -> u32 {
    (instr / 0x100) % 16
}

/// Bits 4 to 7: the source register, or the texture of a render trigger.
pub open spec fn rs_of(instr: u32) -> u32 {
    (instr / 0x10) % 16
}

/// Bits 0 to 7: the immediate operand.
pub open spec fn imm_of(instr: u32) -> u32 {
    instr % 0x100
}

/// The subtype that a render trigger names.
pub open spec fn cmd_type_of(subtype: u32) -> RenderCmdType {
    if subtype == 0 {
        RenderCmdType::DrawPolygon
    } else if subtype == 1 {
        RenderCmdType::DrawLine
    } else if subtype == 2 {
        RenderCmdType::ClearFrame
    } else {
        RenderCmdType::Unknown
    }
}

/// The render request that a trigger word stands for.
pub open spec fn render_command_of(instr: u32) -> RenderCommandView {
    RenderCommandView {
        cmd_type: cmd_type_of(rd_of(instr)),
        vertices: Seq::new(4, |i: int| (0i16, 0i16)),
        texture_id: rs_of(instr) as u8,
        color: (instr % 16) as u16,
        z_depth: 0,
    }
}

/// The status word after a comparison gave `result`: the high byte is
/// kept, bit 0 tells zero, bit 1 tells negative, and carry is clear.
pub open spec fn status_after(sr: u16, result: u32) -> u16 {
    ((sr / 256) * 256 + (if result == 0 { 1int } else { 0 }) + (if result >= 0x8000_0000 { 2int } else { 0 })) as u16
}

pub open spec fn wrapping_add_u32(a: u32, b: u32) -> u32 {
    ((a + b) % 0x1_0000_0000) as u32
}

pub open spec fn wrapping_sub_u32(a: u32, b: u32) -> u32 {
    ((a - b) % 0x1_0000_0000) as u32
}

/// The core's state as contracts see it.
pub struct ProcessorState {
    pub regs: Seq<u32>,
    pub pc: u32,
    pub sr: u16,
    pub code_cache: Seq<u16>,
    pub pipeline: Seq<u32>,
    pub cmd_buffer: Seq<u16>,
    pub cmd_read_ptr: int,
    pub cmd_write_ptr: int,
    pub running: bool,
    pub halted: bool,
    pub irq_enabled: bool,
    pub irq_asserted: bool,
    pub current_cmd: Option<RenderCommandView>,
    pub cmd_ready: bool,
}

impl ProcessorState {
    pub open spec fn valid(self) -> bool {
        &&& self.regs.len() == 16
        &&& self.code_cache.len() == CODE_WORDS
        &&& self.pipeline.len() == 3
        &&& self.cmd_buffer.len() == CMD_SLOTS
        &&& 0 <= self.cmd_read_ptr < CMD_SLOTS
        &&& 0 <= self.cmd_write_ptr < CMD_SLOTS
        &&& (self.cmd_ready ==> self.current_cmd is Some)
    }

    /// The state after power-on and after a reset.
    pub open spec fn initial() -> ProcessorState {
        ProcessorState {
            regs: Seq::new(16, |i: int| 0u32),
            pc: 0,
            sr: 0,
            code_cache: Seq::new(CODE_WORDS as nat, |i: int| 0u16),
            pipeline: Seq::new(3, |i: int| 0u32),
            cmd_buffer: Seq::new(CMD_SLOTS as nat, |i: int| 0u16),
            cmd_read_ptr: 0,
            cmd_write_ptr: 0,
            running: false,
            halted: false,
            irq_enabled: true,
            irq_asserted: false,
            current_cmd: None,
            cmd_ready: false,
        }
    }

    /// Entries written to the command buffer and not yet drained.
    pub open spec fn pending_commands(self) -> int {
        (self.cmd_write_ptr - self.cmd_read_ptr) % (CMD_SLOTS as int)
    }

    /// The instruction word under the program counter.
    pub open spec fn fetched(self) -> u32 {
        self.code_cache[(self.pc as int / 2) % (CODE_WORDS as int)] as u32
    }

    /// A render trigger: the request replaces whatever was pending.
    pub open spec fn with_render_command(self, instr: u32) -> ProcessorState {
        ProcessorState { current_cmd: Some(render_command_of(instr)), cmd_ready: true, ..self }
    }

    /// The effect of one instruction word: move, add or subtract an
    /// immediate, compare, jump, call (register 15 links, and is read
    /// after it was linked), return, render trigger. Words outside the
    /// defined opcodes change nothing.
    pub open spec fn executed(self, instr: u32) -> ProcessorState {
        let op = opcode_of(instr);
        let rd = rd_of(instr) as int;
        let rs = rs_of(instr) as int;
        let imm = imm_of(instr);
        if op == 0x0 {
            ProcessorState { regs: self.regs.update(rd, self.regs[rs]), ..self }
        } else if op == 0x1 {
            ProcessorState { regs: self.regs.update(rd, wrapping_add_u32(self.regs[rs], imm)), ..self }
        } else if op == 0x2 {
            ProcessorState { regs: self.regs.update(rd, wrapping_sub_u32(self.regs[rs], imm)), ..self }
        } else if op == 0x3 {
            ProcessorState { sr: status_after(self.sr, wrapping_sub_u32(self.regs[rs], imm)), ..self }
        } else if op == 0x8 {
            ProcessorState { pc: self.regs[rs] % 0x100_0000, ..self }
        } else if op == 0x9 {
            let linked = self.regs.update(15, self.pc);
            ProcessorState { regs: linked, pc: linked[rs] % 0x100_0000, ..self }
        } else if op == 0xA {
            ProcessorState { pc: self.regs[15], ..self }
        } else if op == 0xB {
            self.with_render_command(instr)
        } else {
            self
        }
    }

    /// Drains at most one entry of the command buffer; an entry with its
    /// top bit set is a render trigger.
    pub open spec fn drained(self) -> ProcessorState {
        if self.cmd_read_ptr == self.cmd_write_ptr {
            self
        } else {
            let cmd = self.cmd_buffer[self.cmd_read_ptr];
            let next = ProcessorState {
                cmd_read_ptr: (self.cmd_read_ptr + 1) % (CMD_SLOTS as int),
                ..self
            };
            if cmd >= 0x8000 {
                next.with_render_command(cmd as u32)
            } else {
                next
            }
        }
    }

    /// One whole cycle of a running core: fetch, decode, execute, advance
    /// the program counter by one instruction, drain the command buffer.
    /// A core that is not running, or is halted, stays as it is.
    pub open spec fn cycled(self) -> ProcessorState {
        if !self.running || self.halted {
            self
        } else {
            let instr = self.fetched();
            let shadowed = ProcessorState {
                pipeline: self.pipeline.update(0, instr).update(1, instr),
                ..self
            };
            let done = shadowed.executed(instr);
            let advanced = ProcessorState { pc: wrapping_add_u32(done.pc, 2), ..done };
            advanced.drained()
        }
    }

    pub open spec fn started(self) -> ProcessorState {
        ProcessorState {
            running: true,
            halted: false,
            pc: ENTRY_POINT,
            code_cache: self.code_cache.update(0, 0x1000u16).update(1, 0x1100u16),
            ..self
        }
    }

    pub open spec fn stopped(self) -> ProcessorState {
        ProcessorState { running: false, halted: true, ..self }
    }

    pub open spec fn with_command_word(self, value: u16) -> ProcessorState {
        ProcessorState {
            cmd_buffer: self.cmd_buffer.update(self.cmd_write_ptr, value),
            cmd_write_ptr: (self.cmd_write_ptr + 1) % (CMD_SLOTS as int),
            ..self
        }
    }
}

pub struct SVPProcessor {
    pub regs: [u32; 16],
    pub pc: u32,
    pub sr: u16,
    pub code_cache: [u16; 2048],
    pub pipeline: [u32; 3],
    pub cmd_buffer: [u16; 128],
    pub cmd_read_ptr: usize,
    pub cmd_write_ptr: usize,
    pub running: bool,
    pub halted: bool,
    pub irq_enabled: bool,
    pub irq_asserted: bool,
    pub current_cmd: Option<RenderCommand>,
    pub cmd_ready: bool,
}

impl View for SVPProcessor {
    type V = ProcessorState;

    open spec fn view(&self) -> ProcessorState {
        ProcessorState {
            regs: self.regs@,
            pc: self.pc,
            sr: self.sr,
            code_cache: self.code_cache@,
            pipeline: self.pipeline@,
            cmd_buffer: self.cmd_buffer@,
            cmd_read_ptr: self.cmd_read_ptr as int,
            cmd_write_ptr: self.cmd_write_ptr as int,
            running: self.running,
            halted: self.halted,
            irq_enabled: self.irq_enabled,
            irq_asserted: self.irq_asserted,
            current_cmd: match self.current_cmd {
                Some(c) => Some(c@),
                None => None,
            },
            cmd_ready: self.cmd_ready,
        }
    }
}

/// Decodes the subtype field of a render trigger.
pub fn decode_cmd_type(subtype: u32) -> (r: RenderCmdType)
    ensures
        r == cmd_type_of(subtype),
{
    if subtype == 0 {
        RenderCmdType::DrawPolygon
    } else if subtype == 1 {
        RenderCmdType::DrawLine
    } else if subtype == 2 {
        RenderCmdType::ClearFrame
    } else {
        RenderCmdType::Unknown
    }
}

impl SVPProcessor {
    pub open spec fn wf(&self) -> bool {
        self@.valid()
    }

    pub fn new() -> (r: Self)
        ensures
            r.wf(),
            r@ == ProcessorState::initial(),
    {
        let r = SVPProcessor {
            regs: [0; 16],
            pc: 0,
            sr: 0,
            code_cache: [0; 2048],
            pipeline: [0; 3],
            cmd_buffer: [0; 128],
            cmd_read_ptr: 0,
            cmd_write_ptr: 0,
            running: false,
            halted: false,
            irq_enabled: true,
            irq_asserted: false,
            current_cmd: None,
            cmd_ready: false,
        };
        assert(r@.regs =~= ProcessorState::initial().regs);
        assert(r@.code_cache =~= ProcessorState::initial().code_cache);
        assert(r@.pipeline =~= ProcessorState::initial().pipeline);
        assert(r@.cmd_buffer =~= ProcessorState::initial().cmd_buffer);
        r
    }

    pub fn reset(&mut self)
        ensures
            final(self).wf(),
            final(self)@ == ProcessorState::initial(),
    {
        *self = SVPProcessor::new();
    }

    /// Leaves `Halted` for `Running` at the entry point, with the
    /// instruction window reloaded.
    pub fn start(&mut self)
        requires
            old(self).wf(),
        ensures
            final(self).wf(),
            final(self)@ == old(self)@.started(),
    {
        self.running = true;
        self.halted = false;
        self.pc = ENTRY_POINT;
        self.load_code_cache();
    }

    pub fn stop(&mut self)
        requires
            old(self).wf(),
        ensures
            final(self).wf(),
            final(self)@ == old(self)@.stopped(),
    {
        self.running = false;
        self.halted = true;
    }

    pub fn execute_cycle(&mut self)
        requires
            old(self).wf(),
        ensures
            final(self).wf(),
            final(self)@ == old(self)@.cycled(),
    {
        if !self.running || self.halted {
            return;
        }
        let instr = self.fetch_instruction();
        self.pipeline[0] = instr;
        let decoded = self.decode_instruction(instr);
        self.pipeline[1] = decoded;
        self.execute_instruction(decoded);
        self.pc = self.pc.wrapping_add(2);
        self.process_command_buffer();
    }

    fn fetch_instruction(&self) -> (r: u32)
        ensures
            r == self@.fetched(),
            r <= 0xFFFF,
    {
        let cache_idx: usize = ((self.pc / 2) as usize) % CODE_WORDS;
        self.code_cache[cache_idx] as u32
    }

    /// The opcode field is examined at execute time; decoding hands the
    /// word on as it is.
    fn decode_instruction(&self, instr: u32) -> (r: u32)
        ensures
            r == instr,
    {
        instr
    }

    fn execute_instruction(&mut self, instr: u32)
        requires
            old(self).wf(),
        ensures
            final(self).wf(),
            final(self)@ == old(self)@.executed(instr),
    {
        let opcode: u32 = (instr / 0x1000) % 16;
        let rd: usize = ((instr / 0x100) % 16) as usize;
        let rs: usize = ((instr / 0x10) % 16) as usize;
        let imm: u32 = instr % 0x100;
        if opcode == 0x0 {
            self.regs[rd] = self.regs[rs];
        } else if opcode == 0x1 {
            self.regs[rd] = self.regs[rs].wrapping_add(imm);
        } else if opcode == 0x2 {
            self.regs[rd] = self.regs[rs].wrapping_sub(imm);
        } else if opcode == 0x3 {
            let result = self.regs[rs].wrapping_sub(imm);
            self.update_status_flags(result);
        } else if opcode == 0x8 {
            self.pc = self.regs[rs] % 0x100_0000;
        } else if opcode == 0x9 {
            self.regs[15] = self.pc;
            self.pc = self.regs[rs] % 0x100_0000;
        } else if opcode == 0xA {
            self.pc = self.regs[15];
        } else if opcode == 0xB {
            self.process_render_command(instr);
        }
    }

    fn process_render_command(&mut self, instr: u32)
        requires
            old(self).wf(),
        ensures
            final(self).wf(),
            final(self)@ == old(self)@.with_render_command(instr),
    {
        let cmd = RenderCommand {
            cmd_type: decode_cmd_type((instr / 0x100) % 16),
            vertices: [(0, 0); 4],
            texture_id: ((instr / 0x10) % 16) as u8,
            color: (instr % 16) as u16,
            z_depth: 0,
        };
        assert(cmd@.vertices =~= render_command_of(instr).vertices);
        self.current_cmd = Some(cmd);
        self.cmd_ready = true;
    }

    /// Appends a word to the circular command buffer. The write index
    /// wraps; a full buffer is overwritten, as on the hardware.
    pub fn write_command_buffer(&mut self, value: u16)
        requires
            old(self).wf(),
        ensures
            final(self).wf(),
            final(self)@ == old(self)@.with_command_word(value),
    {
        self.cmd_buffer[self.cmd_write_ptr] = value;
        self.cmd_write_ptr = (self.cmd_write_ptr + 1) % CMD_SLOTS;
    }

    fn process_command_buffer(&mut self)
        requires
            old(self).wf(),
        ensures
            final(self).wf(),
            final(self)@ == old(self)@.drained(),
    {
        if self.cmd_read_ptr != self.cmd_write_ptr {
            let cmd: u16 = self.cmd_buffer[self.cmd_read_ptr];
            self.cmd_read_ptr = (self.cmd_read_ptr + 1) % CMD_SLOTS;
            if cmd >= 0x8000 {
                self.process_render_command(cmd as u32);
            }
        }
    }

    fn load_code_cache(&mut self)
        ensures
            final(self)@ == (ProcessorState {
                code_cache: old(self)@.code_cache.update(0, 0x1000u16).update(1, 0x1100u16),
                ..old(self)@
            }),
    {
        self.code_cache[0] = 0x1000;
        self.code_cache[1] = 0x1100;
    }

    fn update_status_flags(&mut self, result: u32)
        ensures
            final(self)@ == (ProcessorState { sr: status_after(old(self).sr, result), ..old(self)@ }),
    {
        let mut sr: u16 = (self.sr / 256) * 256;
        if result == 0 {
            sr = sr + 1;
        }
        if result >= 0x8000_0000 {
            sr = sr + 2;
        }
        self.sr = sr;
    }

    /// Number of command words waiting to be drained.
    pub fn pending_commands(&self) -> (r: usize)
        requires
            self.wf(),
        ensures
            r == self@.pending_commands(),
            r < CMD_SLOTS,
    {
        (self.cmd_write_ptr + CMD_SLOTS - self.cmd_read_ptr) % CMD_SLOTS
    }

    pub fn render_command_ready(&self) -> (r: bool)
        ensures
            r == self@.cmd_ready,
    {
        self.cmd_ready
    }

    /// Takes the pending render request, if one is ready. Taking it
    /// empties the slot.
    pub fn get_render_command(&mut self) -> (r: Option<RenderCommand>)
        requires
            old(self).wf(),
        ensures
            final(self).wf(),
            old(self)@.cmd_ready ==> r is Some && Some(r->0@) == old(self)@.current_cmd
                && final(self)@ == (ProcessorState { cmd_ready: false, current_cmd: None, ..old(self)@ }),
            !old(self)@.cmd_ready ==> r is None && final(self)@ == old(self)@,
    {
        if self.cmd_ready {
            self.cmd_ready = false;
            let cmd = self.current_cmd;
            self.current_cmd = None;
            cmd
        } else {
            None
        }
    }

    pub fn command_completed(&mut self)
        requires
            old(self).wf(),
        ensures
            final(self).wf(),
            final(self)@ == (ProcessorState { cmd_ready: false, ..old(self)@ }),
    {
        self.cmd_ready = false;
    }

    pub fn irq_asserted(&self) -> (r: bool)
        ensures
            r == self@.irq_asserted,
    {
        self.irq_asserted
    }

    pub fn clear_irq(&mut self)
        requires
            old(self).wf(),
        ensures
            final(self).wf(),
            final(self)@ == (ProcessorState { irq_asserted: false, ..old(self)@ }),
    {
        self.irq_asserted = false;
    }
}

} // verus!
