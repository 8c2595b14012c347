//! The video display processor: its guest-visible registers, the queue of
//! submitted command buffers, and the interpreter that runs them against
//! video memory.

use crate::peripheral::Peripheral;
use std::collections::VecDeque;
use vstd::prelude::*;

verus! {

pub const REG_STATUS: usize = 0;
pub const REG_CMDPORT: usize = 1;
pub const REG_DISPLAYMODE: usize = 2;

pub const STATUSBIT_RESET: u32 = 1;
pub const STATUSBIT_CMDFIFOEMPTY: u32 = 2;
pub const STATUSBIT_CMDFIFOFULL: u32 = 4;

pub const STATUSBIT_ERR_MASK: u32 = 0x18;
pub const STATUSBIT_ERR_ADDR: u32 = 0x8;
pub const STATUSBIT_ERR_CMD: u32 = 0x10;

pub const DISPLAYBIT_CABLE_MASK: u32 = 0b11;
pub const DISPLAYBIT_CABLE_VGA: u32 = 0;
pub const DISPLAYBIT_CABLE_COMPOSITE: u32 = 1;
pub const DISPLAYBIT_CABLE_SVIDEO: u32 = 2;
pub const DISPLAYBIT_CABLE_COMPONENT: u32 = 3;
pub const DISPLAYBIT_ENABLE: u32 = 4;
pub const DISPLAYBIT_INTERLACE: u32 = 8;

pub const INTERNALREG_FBDIM: u32 = 0;
pub const INTERNALREG_FBADDR: u32 = 1;
pub const INTERNALREG_DBADDR: u32 = 2;
pub const INTERNALREG_VUSTRIDE: u32 = 3;
pub const INTERNALREG_VULAYOUT0: u32 = 4;
pub const INTERNALREG_VUCDATA0: u32 = 12;
pub const INTERNALREG_VUPROGADDR: u32 = 76;
pub const INTERNALREG_FOGENCOL: u32 = 77;
pub const INTERNALREG_FOGTBL0: u32 = 78;
pub const INTERNALREG_CLIPXY: u32 = 142;
pub const INTERNALREG_CLIPWH: u32 = 143;
pub const INTERNALREG_VPXY: u32 = 144;
pub const INTERNALREG_VPWH: u32 = 145;
pub const INTERNALREG_DEPTH: u32 = 146;
pub const INTERNALREG_BLEND: u32 = 147;
pub const INTERNALREG_CULL: u32 = 148;
pub const INTERNALREG_TUCONF: u32 = 149;
pub const INTERNALREG_TU0ADDR: u32 = 150;
pub const INTERNALREG_TU1ADDR: u32 = 151;
pub const INTERNALREG_TCOMBINE: u32 = 152;

/// Number of internal registers.
pub const INTERNALREG_COUNT: usize = 256;

/// Size of video memory in bytes (8 MiB).
pub const VRAM_SIZE: u32 = 1024 * 1024 * 8;

/// Size of video memory in 32-bit words.
pub const VRAM_WORDS: usize = 1024 * 1024 * 2;

pub const OP_WRITE_INTERNAL_REGISTER: u32 = 0x00;
pub const OP_PROCESS_VERTEX_LIST: u32 = 0x01;
pub const OP_DRAW_TRIANGLE_LIST: u32 = 0x02;
pub const OP_DRAW_TRIANGLE_STRIP: u32 = 0x03;
pub const OP_DRAW_LINE_LIST: u32 = 0x04;
pub const OP_DRAW_LINE_STRIP: u32 = 0x05;
pub const OP_CLEAR_COLOR: u32 = 0x06;
pub const OP_CLEAR_DEPTH: u32 = 0x07;
pub const OP_END_OF_QUEUE: u32 = 0xFF;

/// The fault recorded by the command interpreter, shown in the STATUS register.
#[derive(Clone, Copy, Debug, PartialEq, Eq, Structural)]
pub enum ErrorMode {
    /// No command buffer has faulted since the last reset.
    NoError,
    /// A command buffer did not start on a multiple of four, or one of its
    /// words lay outside video memory.
    AddressError,
    /// A command buffer held an opcode that is not defined.
    CmdError,
}

#[derive(Clone, Copy, Debug, PartialEq, Eq, Structural)]
pub enum DisplayCable {
    VGA,
    Composite,
    SVideo,
    Component,
}

#[derive(Clone, Copy, Debug, PartialEq, Eq, Structural)]
pub enum Topology {
    TriangleList,
    TriangleStrip,
    LineList,
    LineStrip,
}

/// One decoded command of a command buffer.
#[derive(Clone, Copy, Debug, PartialEq, Eq, Structural)]
pub enum VDPCommand {
    /// Store `val` in internal register `reg`.
    WriteInternalRegister { reg: usize, val: u32 },
    /// Transform `count` vertices from `src_addr` to `dst_addr`.
    ProcessVertexList { count: u32, src_addr: u32, dst_addr: u32 },
    /// Draw `count` primitives of the given topology from `addr`.
    DrawList { topology: Topology, count: u32, addr: u32 },
    /// Clear the colour target to the packed colour.
    ClearColor { color: u32 },
    /// Clear the depth target; `depth` is the bit pattern of a 32-bit float.
    ClearDepth { depth: u32 },
    /// Present the frame, copying it to `copy_target` if there is one. No
    /// opcode of the current command set decodes to this command.
    SwapBuffers { copy_target: Option<u32> },
    /// End the buffer and report `token` as completed.
    EndOfQueue { token: u32 },
}

/// Work for the rendering backend, in the order in which it must be done.
#[derive(Debug, PartialEq, Eq)]
pub enum BackendOp {
    /// Copy `len` words of video memory, starting at word `dst_addr`, to the
    /// backend's copy of it.
    UploadVram { dst_addr: u32, len: usize },
    /// Replace the backend's copy of the register file by `regs`.
    LoadRegisters { regs: Vec<u32> },
    /// Run the vertex unit over `count` vertices.
    ProcessVertexList { count: u32, src_addr: u32, dst_addr: u32 },
    /// Rasterise `count` triangles whose vertices start at `addr`.
    DrawTriangleList { count: u32, addr: u32 },
    /// Clear the colour target to the packed colour.
    ClearColor { color: u32 },
    /// Clear the depth target to the depth with this bit pattern.
    ClearDepth { depth: u32 },
}

/// What a `BackendOp` says, with the register file as a sequence.
pub enum BackendOpView {
    UploadVram { dst_addr: u32, len: usize },
    LoadRegisters { regs: Seq<u32> },
    ProcessVertexList { count: u32, src_addr: u32, dst_addr: u32 },
    DrawTriangleList { count: u32, addr: u32 },
    ClearColor { color: u32 },
    ClearDepth { depth: u32 },
}

impl View for BackendOp {
    type V = BackendOpView;

    open spec fn view(&self) -> BackendOpView {
        match *self {
            BackendOp::UploadVram { dst_addr, len } => BackendOpView::UploadVram { dst_addr, len },
            BackendOp::LoadRegisters { regs } => BackendOpView::LoadRegisters { regs: regs@ },
            BackendOp::ProcessVertexList { count, src_addr, dst_addr } => {
                BackendOpView::ProcessVertexList { count, src_addr, dst_addr }
            },
            BackendOp::DrawTriangleList { count, addr } => BackendOpView::DrawTriangleList {
                count,
                addr,
            },
            BackendOp::ClearColor { color } => BackendOpView::ClearColor { color },
            BackendOp::ClearDepth { depth } => BackendOpView::ClearDepth { depth },
        }
    }
}

/// The views of a list of backend operations, in order.
pub open spec fn ops_view(ops: Seq<BackendOp>) -> Seq<BackendOpView> {
    ops.map_values(|op: BackendOp| op@)
}

/// The state of the display processor as contracts see it.
pub struct VdpState {
    /// The 256 internal registers.
    pub regs: Seq<u32>,
    /// Whether a register was written since the backend last got the file.
    pub regs_dirty: bool,
    pub reset_state: bool,
    /// Addresses of the submitted command buffers, oldest first.
    pub cmd_fifo: Seq<u32>,
    /// Completion tokens that the guest has not read yet, oldest first.
    pub tokens: Seq<u32>,
    pub cable: DisplayCable,
    pub display_enable: bool,
    pub display_interlace: bool,
    pub err_mode: ErrorMode,
    /// Video memory, word by word.
    pub vram: Seq<u32>,
}

impl VdpState {
    /// Whether the state has all its registers.
    pub open spec fn wf(self) -> bool {
        self.regs.len() == INTERNALREG_COUNT
    }
}

/// The state of the display processor together with the backend work that
/// has been issued so far.
pub struct Trace {
    pub state: VdpState,
    pub ops: Seq<BackendOpView>,
}

/// The topology that a draw opcode selects.
pub open spec fn topology_of(op: u32) -> Topology {
    if op == OP_DRAW_TRIANGLE_LIST {
        Topology::TriangleList
    } else if op == OP_DRAW_TRIANGLE_STRIP {
        Topology::TriangleStrip
    } else if op == OP_DRAW_LINE_LIST {
        Topology::LineList
    } else {
        Topology::LineStrip
    }
}

/// The command whose header word is at word `at` of video memory, with the
/// index of the word after it, or the fault that fetching it raises.
///
/// The low byte of the header is the opcode, the other 24 bits are its
/// argument; the operand words follow the header. A command that does not lie
/// within video memory with all its words is an address fault, an opcode that
/// is not defined a command fault.
pub open spec fn decode(vram: Seq<u32>, at: int) -> Result<(VDPCommand, int), ErrorMode> {
    if !(0 <= at < vram.len()) {
        Err(ErrorMode::AddressError)
    } else {
        let hdr = vram[at];
        let op = hdr & 0xFF;
        let arg = hdr >> 8;
        if op == OP_END_OF_QUEUE {
            Ok((VDPCommand::EndOfQueue { token: arg }, at + 1))
        } else if op > OP_CLEAR_DEPTH {
            Err(ErrorMode::CmdError)
        } else if op == OP_PROCESS_VERTEX_LIST {
            if at + 2 < vram.len() {
                Ok(
                    (
                        VDPCommand::ProcessVertexList {
                            count: arg,
                            src_addr: vram[at + 1],
                            dst_addr: vram[at + 2],
                        },
                        at + 3,
                    ),
                )
            } else {
                Err(ErrorMode::AddressError)
            }
        } else if at + 1 < vram.len() {
            let word = vram[at + 1];
            if op == OP_WRITE_INTERNAL_REGISTER {
                Ok((VDPCommand::WriteInternalRegister { reg: (arg & 0xFF) as usize, val: word }, at + 2))
            } else if op == OP_CLEAR_COLOR {
                Ok((VDPCommand::ClearColor { color: word }, at + 2))
            } else if op == OP_CLEAR_DEPTH {
                Ok((VDPCommand::ClearDepth { depth: word }, at + 2))
            } else {
                Ok((VDPCommand::DrawList { topology: topology_of(op), count: arg, addr: word }, at + 2))
            }
        } else {
            Err(ErrorMode::AddressError)
        }
    }
}

/// Decodes the command at word `at` of `vram`.
pub fn decode_command(vram: &Vec<u32>, at: usize) -> (r: Result<(VDPCommand, usize), ErrorMode>)
    ensures
        match r {
            Ok((cmd, next)) => decode(vram@, at as int) == Ok::<(VDPCommand, int), ErrorMode>(
                (cmd, next as int),
            ),
            Err(e) => decode(vram@, at as int) == Err::<(VDPCommand, int), ErrorMode>(e),
        },
{
    let len: usize = vram.len();
    if at >= len {
        return Err(ErrorMode::AddressError);
    }
    let hdr: u32 = vram[at];
    let op: u32 = hdr & 0xFF;
    let arg: u32 = hdr >> 8;
    if op == OP_END_OF_QUEUE {
        Ok((VDPCommand::EndOfQueue { token: arg }, at + 1))
    } else if op > OP_CLEAR_DEPTH {
        Err(ErrorMode::CmdError)
    } else if op == OP_PROCESS_VERTEX_LIST {
        if len - at > 2 {
            Ok(
                (
                    VDPCommand::ProcessVertexList {
                        count: arg,
                        src_addr: vram[at + 1],
                        dst_addr: vram[at + 2],
                    },
                    at + 3,
                ),
            )
        } else {
            Err(ErrorMode::AddressError)
        }
    } else if len - at > 1 {
        let word: u32 = vram[at + 1];
        if op == OP_WRITE_INTERNAL_REGISTER {
            Ok((VDPCommand::WriteInternalRegister { reg: (arg & 0xFF) as usize, val: word }, at + 2))
        } else if op == OP_CLEAR_COLOR {
            Ok((VDPCommand::ClearColor { color: word }, at + 2))
        } else if op == OP_CLEAR_DEPTH {
            Ok((VDPCommand::ClearDepth { depth: word }, at + 2))
        } else {
            let topology = if op == OP_DRAW_TRIANGLE_LIST {
                Topology::TriangleList
            } else if op == OP_DRAW_TRIANGLE_STRIP {
                Topology::TriangleStrip
            } else if op == OP_DRAW_LINE_LIST {
                Topology::LineList
            } else {
                Topology::LineStrip
            };
            Ok((VDPCommand::DrawList { topology, count: arg, addr: word }, at + 2))
        }
    } else {
        Err(ErrorMode::AddressError)
    }
}

/// The trace after the pending register writes have reached the backend:
/// if a register was written since the last time, the whole file is sent.
pub open spec fn flushed(t: Trace) -> Trace {
    if t.state.regs_dirty {
        Trace {
            state: VdpState { regs_dirty: false, ..t.state },
            ops: t.ops.push(BackendOpView::LoadRegisters { regs: t.state.regs }),
        }
    } else {
        t
    }
}

/// The trace after a fault: the fault is recorded and nothing else changes.
pub open spec fn faulted(t: Trace, err: ErrorMode) -> Trace {
    Trace { state: VdpState { err_mode: err, ..t.state }, ops: t.ops }
}

/// The trace after one command has been carried out.
///
/// A register write marks the register file dirty. A vertex list and a
/// triangle list send the register file to the backend if it is dirty, and
/// then issue their dispatch. The draw commands of the other topologies are
/// not dispatched and change nothing. The two clear commands are passed on
/// to the backend as they are. The end of the queue appends its token to the
/// completion tokens.
pub open spec fn execute(t: Trace, cmd: VDPCommand) -> Trace {
    match cmd {
        VDPCommand::WriteInternalRegister { reg, val } => Trace {
            state: VdpState {
                regs: t.state.regs.update(reg as int, val),
                regs_dirty: true,
                ..t.state
            },
            ops: t.ops,
        },
        VDPCommand::ProcessVertexList { count, src_addr, dst_addr } => Trace {
            state: flushed(t).state,
            ops: flushed(t).ops.push(
                BackendOpView::ProcessVertexList { count, src_addr, dst_addr },
            ),
        },
        VDPCommand::DrawList { topology, count, addr } => if topology == Topology::TriangleList {
            Trace {
                state: flushed(t).state,
                ops: flushed(t).ops.push(BackendOpView::DrawTriangleList { count, addr }),
            }
        } else {
            t
        },
        VDPCommand::ClearColor { color } => Trace {
            state: t.state,
            ops: t.ops.push(BackendOpView::ClearColor { color }),
        },
        VDPCommand::ClearDepth { depth } => Trace {
            state: t.state,
            ops: t.ops.push(BackendOpView::ClearDepth { depth }),
        },
        VDPCommand::SwapBuffers { copy_target } => t,
        VDPCommand::EndOfQueue { token } => Trace {
            state: VdpState { tokens: t.state.tokens.push(token), ..t.state },
            ops: t.ops,
        },
    }
}

/// The trace after the commands from word `at` of video memory on have been
/// interpreted, up to the end of the queue or to the first fault.
pub open spec fn interpret(t: Trace, at: int) -> Trace
    decreases t.state.vram.len() - at,
{
    match decode(t.state.vram, at) {
        Err(err) => faulted(t, err),
        Ok((cmd, next)) => if cmd is EndOfQueue {
            execute(t, cmd)
        } else {
            interpret(execute(t, cmd), next)
        },
    }
}

/// The trace after the command buffer at `addr` has been run. `addr` counts
/// words of video memory. A buffer that does not start on a multiple of four
/// is an address fault, and none of it is interpreted.
pub open spec fn run_buffer(t: Trace, addr: u32) -> Trace {
    if addr % 4 != 0 {
        faulted(t, ErrorMode::AddressError)
    } else {
        interpret(t, addr as int)
    }
}

/// The trace after the command buffers at `addrs` have been run in order,
/// each one to its end or its fault before the next is started.
pub open spec fn run_buffers(t: Trace, addrs: Seq<u32>) -> Trace
    decreases addrs.len(),
{
    if addrs.len() == 0 {
        t
    } else {
        run_buffers(run_buffer(t, addrs[0]), addrs.drop_first())
    }
}

/// One tick: every buffer that was submitted before the tick is run, oldest
/// first, and the queue of submissions is left empty.
pub open spec fn tick_trace(s: VdpState) -> Trace {
    run_buffers(
        Trace { state: VdpState { cmd_fifo: Seq::empty(), ..s }, ops: Seq::empty() },
        s.cmd_fifo,
    )
}

/// The state of a display processor that has just been made: every register
/// and all of video memory zero, the register file due for the backend.
pub open spec fn initial_state() -> VdpState {
    VdpState {
        regs: Seq::new(INTERNALREG_COUNT as nat, |i: int| 0u32),
        regs_dirty: true,
        reset_state: false,
        cmd_fifo: Seq::empty(),
        tokens: Seq::empty(),
        cable: DisplayCable::VGA,
        display_enable: false,
        display_interlace: false,
        err_mode: ErrorMode::NoError,
        vram: Seq::new(VRAM_WORDS as nat, |i: int| 0u32),
    }
}

/// The bits of the display mode register that name the cable.
pub open spec fn cable_bits(cable: DisplayCable) -> u32 {
    match cable {
        DisplayCable::VGA => DISPLAYBIT_CABLE_VGA,
        DisplayCable::Composite => DISPLAYBIT_CABLE_COMPOSITE,
        DisplayCable::SVideo => DISPLAYBIT_CABLE_SVIDEO,
        DisplayCable::Component => DISPLAYBIT_CABLE_COMPONENT,
    }
}

/// The bits of the status register that name the recorded fault.
pub open spec fn error_bits(err: ErrorMode) -> u32 {
    match err {
        ErrorMode::NoError => 0,
        ErrorMode::AddressError => STATUSBIT_ERR_ADDR,
        ErrorMode::CmdError => STATUSBIT_ERR_CMD,
    }
}

/// What a read of the status register returns: the reset bit, the bit that
/// says that no submitted buffer is waiting, and the fault bits.
pub open spec fn status_word(s: VdpState) -> u32 {
    (if s.reset_state { STATUSBIT_RESET } else { 0 })
    | (if s.cmd_fifo.len() == 0 { STATUSBIT_CMDFIFOEMPTY } else { 0 })
    | error_bits(s.err_mode)
}

/// What a read of the display mode register returns: the cable, the enable
/// bit and the interlace bit.
pub open spec fn display_mode_word(s: VdpState) -> u32 {
    cable_bits(s.cable)
    | (if s.display_enable { DISPLAYBIT_ENABLE } else { 0 })
    | (if s.display_interlace { DISPLAYBIT_INTERLACE } else { 0 })
}

/// A guest read of register `reg`: the state after it and the value read.
///
/// Reading the command port takes the oldest completion token out of its
/// queue, or reads 0 if there is none. No other read changes the state, and
/// a register that does not exist reads 0.
pub open spec fn read_reg(s: VdpState, reg: usize) -> (VdpState, u32) {
    if reg == REG_STATUS {
        (s, status_word(s))
    } else if reg == REG_CMDPORT {
        if s.tokens.len() > 0 {
            (VdpState { tokens: s.tokens.drop_first(), ..s }, s.tokens[0])
        } else {
            (s, 0)
        }
    } else if reg == REG_DISPLAYMODE {
        (s, display_mode_word(s))
    } else {
        (s, 0)
    }
}

/// The state after a guest write of `value` to register `reg`.
///
/// A write to the status register with the reset bit clear arms the reset
/// state. A write to the command port submits the command buffer at `value`.
/// A write to the display mode register sets the enable and interlace flags.
/// A write to a register that does not exist is ignored.
pub open spec fn write_reg(s: VdpState, reg: usize, value: u32) -> VdpState {
    if reg == REG_STATUS {
        if value & STATUSBIT_RESET == 0 {
            VdpState { reset_state: true, ..s }
        } else {
            s
        }
    } else if reg == REG_CMDPORT {
        VdpState { cmd_fifo: s.cmd_fifo.push(value), ..s }
    } else if reg == REG_DISPLAYMODE {
        VdpState {
            display_enable: value & DISPLAYBIT_ENABLE != 0,
            display_interlace: value & DISPLAYBIT_INTERLACE != 0,
            ..s
        }
    } else {
        s
    }
}

/// The state after a reset: registers zero and due for the backend, both
/// queues empty, display off, no fault. The cable and video memory stay.
pub open spec fn reset_state_of(s: VdpState) -> VdpState {
    VdpState {
        regs: Seq::new(INTERNALREG_COUNT as nat, |i: int| 0u32),
        regs_dirty: true,
        reset_state: false,
        cmd_fifo: Seq::empty(),
        tokens: Seq::empty(),
        display_enable: false,
        display_interlace: false,
        err_mode: ErrorMode::NoError,
        ..s
    }
}

/// The number of words of `mem_len` that fit into video memory of `vram_len`
/// words from word `dst` on.
pub open spec fn upload_len(vram_len: int, mem_len: int, dst: int) -> int {
    if dst >= vram_len {
        0
    } else if mem_len <= vram_len - dst {
        mem_len
    } else {
        vram_len - dst
    }
}

/// Video memory after `mem` has been copied to word `dst` and the words that
/// follow it. What would lie beyond the end of video memory is dropped.
pub open spec fn uploaded(vram: Seq<u32>, mem: Seq<u32>, dst: int) -> Seq<u32> {
    Seq::new(
        vram.len(),
        |i: int|
            if dst <= i < dst + mem.len() {
                mem[i - dst]
            } else {
                vram[i]
            },
    )
}

proof fn lemma_ops_view_push(ops: Seq<BackendOp>, op: BackendOp)
    ensures
        ops_view(ops.push(op)) == ops_view(ops).push(op@),
{
}

/// The video display processor.
pub struct VDP {
    internal_reg: [u32; 256],
    reset_state: bool,
    cmd_fifo: VecDeque<u32>,
    last_cmd_tok: VecDeque<u32>,
    cable_type: DisplayCable,
    display_enable: bool,
    display_interlace: bool,
    err_mode: ErrorMode,
    vram: Vec<u32>,
    regmem_dirty: bool,
}

impl View for VDP {
    type V = VdpState;

    closed spec fn view(&self) -> VdpState {
        VdpState {
            regs: self.internal_reg@,
            regs_dirty: self.regmem_dirty,
            reset_state: self.reset_state,
            cmd_fifo: self.cmd_fifo@,
            tokens: self.last_cmd_tok@,
            cable: self.cable_type,
            display_enable: self.display_enable,
            display_interlace: self.display_interlace,
            err_mode: self.err_mode,
            vram: self.vram@,
        }
    }
}

impl VDP {
    /// The display processor always has all its registers.
    pub proof fn lemma_wf(&self)
        ensures
            self@.wf(),
    {
    }

    /// A display processor in its power-on state.
    pub fn new() -> (vdp: VDP)
        ensures
            vdp@ == initial_state(),
    {
        let vdp = VDP {
            internal_reg: [0u32; 256],
            reset_state: false,
            cmd_fifo: VecDeque::new(),
            last_cmd_tok: VecDeque::new(),
            cable_type: DisplayCable::VGA,
            display_enable: false,
            display_interlace: false,
            err_mode: ErrorMode::NoError,
            vram: vec![0u32; VRAM_WORDS],
            regmem_dirty: true,
        };
        assert(vdp@.regs =~= initial_state().regs);
        assert(vdp@.vram =~= initial_state().vram);
        vdp
    }

    /// Tells the display processor which cable is plugged in.
    pub fn set_cable(&mut self, cable: DisplayCable)
        ensures
            final(self)@ == (VdpState { cable: cable, ..old(self)@ }),
    {
        self.cable_type = cable;
    }

    /// A guest read of register `reg`.
    pub fn get_reg(&mut self, reg: usize) -> (value: u32)
        ensures
            (final(self)@, value) == read_reg(old(self)@, reg),
    {
        if reg == REG_STATUS {
            (if self.reset_state { STATUSBIT_RESET } else { 0 })
            | (if self.cmd_fifo.len() == 0 { STATUSBIT_CMDFIFOEMPTY } else { 0 })
            | (match self.err_mode {
                ErrorMode::NoError => 0,
                ErrorMode::AddressError => STATUSBIT_ERR_ADDR,
                ErrorMode::CmdError => STATUSBIT_ERR_CMD,
            })
        } else if reg == REG_CMDPORT {
            match self.last_cmd_tok.pop_front() {
                Some(token) => token,
                None => 0,
            }
        } else if reg == REG_DISPLAYMODE {
            (match self.cable_type {
                DisplayCable::VGA => DISPLAYBIT_CABLE_VGA,
                DisplayCable::Composite => DISPLAYBIT_CABLE_COMPOSITE,
                DisplayCable::SVideo => DISPLAYBIT_CABLE_SVIDEO,
                DisplayCable::Component => DISPLAYBIT_CABLE_COMPONENT,
            })
            | (if self.display_enable { DISPLAYBIT_ENABLE } else { 0 })
            | (if self.display_interlace { DISPLAYBIT_INTERLACE } else { 0 })
        } else {
            0
        }
    }

    /// A guest write of `value` to register `reg`.
    pub fn set_reg(&mut self, reg: usize, value: u32)
        ensures
            final(self)@ == write_reg(old(self)@, reg, value),
    {
        if reg == REG_STATUS {
            if value & STATUSBIT_RESET == 0 {
                self.reset_state = true;
            }
        } else if reg == REG_CMDPORT {
            self.cmd_fifo.push_back(value);
        } else if reg == REG_DISPLAYMODE {
            self.display_enable = (value & DISPLAYBIT_ENABLE) != 0;
            self.display_interlace = (value & DISPLAYBIT_INTERLACE) != 0;
        }
    }

    /// Runs every command buffer that the guest has submitted, oldest first,
    /// and returns the work for the backend in the order in which it is due.
    pub fn tick(&mut self) -> (ops: Vec<BackendOp>)
        ensures
            (Trace { state: final(self)@, ops: ops_view(ops@) }) == tick_trace(old(self)@),
    {
        let mut ops: Vec<BackendOp> = Vec::new();
        let mut pending: VecDeque<u32> = VecDeque::new();
        std::mem::swap(&mut self.cmd_fifo, &mut pending);
        assert(ops_view(ops@) =~= Seq::<BackendOpView>::empty());
        while pending.len() > 0
            invariant
                run_buffers(Trace { state: self@, ops: ops_view(ops@) }, pending@) == tick_trace(
                    old(self)@,
                ),
            decreases pending.len(),
        {
            match pending.pop_front() {
                Some(addr) => self.exec_cmd_queue(addr, &mut ops),
                None => {},
            }
        }
        ops
    }

    /// Copies `mem` into video memory from word `dst_addr` on, as far as it
    /// fits, and returns the transfer that brings the backend's copy up to
    /// date.
    pub fn upload(&mut self, mem: &[u32], dst_addr: u32) -> (op: BackendOp)
        ensures
            final(self)@ == (VdpState {
                vram: uploaded(old(self)@.vram, mem@, dst_addr as int),
                ..old(self)@
            }),
            op@ == (BackendOpView::UploadVram {
                dst_addr: dst_addr,
                len: upload_len(old(self)@.vram.len() as int, mem@.len() as int, dst_addr as int) as usize,
            }),
    {
        let dst: usize = dst_addr as usize;
        let size: usize = self.vram.len();
        let len: usize = if dst >= size {
            0
        } else if mem.len() <= size - dst {
            mem.len()
        } else {
            size - dst
        };
        let mut i: usize = 0;
        while i < len
            invariant
                i <= len,
                dst + len <= size || len == 0,
                len <= mem@.len(),
                size == self.vram@.len(),
                self.vram@ == uploaded(old(self)@.vram, mem@.subrange(0, i as int), dst as int),
                self@ == (VdpState { vram: self.vram@, ..old(self)@ }),
            decreases len - i,
        {
            self.vram.set(dst + i, mem[i]);
            i += 1;
            assert(self.vram@ =~= uploaded(
                old(self)@.vram,
                mem@.subrange(0, i as int),
                dst as int,
            ));
        }
        assert(self.vram@ =~= uploaded(old(self)@.vram, mem@, dst as int));
        BackendOp::UploadVram { dst_addr, len }
    }

    /// Puts the display processor back into its power-on state, but for the
    /// cable and the contents of video memory.
    pub fn reset(&mut self)
        ensures
            final(self)@ == reset_state_of(old(self)@),
    {
        let mut i: usize = 0;
        while i < INTERNALREG_COUNT
            invariant
                i <= INTERNALREG_COUNT,
                forall|j: int| 0 <= j < i ==> self.internal_reg@[j] == 0,
                self@ == (VdpState { regs: self.internal_reg@, ..old(self)@ }),
            decreases INTERNALREG_COUNT - i,
        {
            self.internal_reg[i] = 0;
            i += 1;
        }
        self.regmem_dirty = true;
        self.cmd_fifo.clear();
        self.last_cmd_tok.clear();
        self.display_enable = false;
        self.display_interlace = false;
        self.reset_state = false;
        self.err_mode = ErrorMode::NoError;
        assert(self@.regs =~= reset_state_of(old(self)@).regs);
    }

    /// The fault on record.
    pub fn err_mode(&self) -> (err: ErrorMode)
        ensures
            err == self@.err_mode,
    {
        self.err_mode
    }

    /// Internal register `index`.
    pub fn internal_reg(&self, index: u8) -> (value: u32)
        ensures
            value == self@.regs[index as int],
    {
        self.internal_reg[index as usize]
    }

    /// Whether a write to the status register has armed the reset state.
    pub fn reset_state(&self) -> (armed: bool)
        ensures
            armed == self@.reset_state,
    {
        self.reset_state
    }

    pub fn cable_type(&self) -> (cable: DisplayCable)
        ensures
            cable == self@.cable,
    {
        self.cable_type
    }

    pub fn display_enable(&self) -> (on: bool)
        ensures
            on == self@.display_enable,
    {
        self.display_enable
    }

    pub fn display_interlace(&self) -> (on: bool)
        ensures
            on == self@.display_interlace,
    {
        self.display_interlace
    }

    /// Whether a register was written since the register file last went to
    /// the backend.
    pub fn regmem_dirty(&self) -> (dirty: bool)
        ensures
            dirty == self@.regs_dirty,
    {
        self.regmem_dirty
    }

    /// The number of submitted command buffers that have not run yet.
    pub fn pending_buffers(&self) -> (n: usize)
        ensures
            n == self@.cmd_fifo.len(),
    {
        self.cmd_fifo.len()
    }

    /// The number of completion tokens that the guest has not read yet.
    pub fn pending_tokens(&self) -> (n: usize)
        ensures
            n == self@.tokens.len(),
    {
        self.last_cmd_tok.len()
    }

    /// Video memory, word by word.
    pub fn vram(&self) -> (words: &Vec<u32>)
        ensures
            words@ == self@.vram,
    {
        &self.vram
    }

    fn snapshot_registers(&self) -> (regs: Vec<u32>)
        ensures
            regs@ == self@.regs,
    {
        let mut regs: Vec<u32> = Vec::new();
        let mut i: usize = 0;
        while i < INTERNALREG_COUNT
            invariant
                i <= INTERNALREG_COUNT,
                regs@ == self.internal_reg@.subrange(0, i as int),
            decreases INTERNALREG_COUNT - i,
        {
            regs.push(self.internal_reg[i]);
            i += 1;
        }
        regs
    }

    /// Sends the register file to the backend if a register was written since
    /// it was last sent, and not otherwise.
    pub fn flush_regmem(&mut self, ops: &mut Vec<BackendOp>)
        ensures
            (Trace { state: final(self)@, ops: ops_view(final(ops)@) }) == flushed(
                Trace { state: old(self)@, ops: ops_view(old(ops)@) },
            ),
    {
        if self.regmem_dirty {
            let regs = self.snapshot_registers();
            let op = BackendOp::LoadRegisters { regs };
            proof {
                lemma_ops_view_push(ops@, op);
            }
            ops.push(op);
            self.regmem_dirty = false;
        }
    }

    /// Runs the command buffer at word `addr` of video memory to its end or
    /// to its first fault, and appends the backend work it asks for to `ops`.
    pub fn exec_cmd_queue(&mut self, addr: u32, ops: &mut Vec<BackendOp>)
        ensures
            (Trace { state: final(self)@, ops: ops_view(final(ops)@) }) == run_buffer(
                Trace { state: old(self)@, ops: ops_view(old(ops)@) },
                addr,
            ),
    {
        if addr % 4 != 0 {
            self.err_mode = ErrorMode::AddressError;
            return ;
        }
        let ghost goal = interpret(
            Trace { state: old(self)@, ops: ops_view(old(ops)@) },
            addr as int,
        );
        let mut at: usize = addr as usize;
        loop
            invariant
                interpret(Trace { state: self@, ops: ops_view(ops@) }, at as int) == goal,
                goal == run_buffer(Trace { state: old(self)@, ops: ops_view(old(ops)@) }, addr),
            decreases self.vram.len() - at,
        {
            match decode_command(&self.vram, at) {
                Err(err) => {
                    self.err_mode = err;
                    return ;
                },
                Ok((cmd, next)) => {
                    match cmd {
                        VDPCommand::WriteInternalRegister { reg, val } => {
                            proof {
                                lemma_decoded_register_exists(self.vram@, at as int);
                            }
                            self.internal_reg[reg] = val;
                            self.regmem_dirty = true;
                        },
                        VDPCommand::ProcessVertexList { count, src_addr, dst_addr } => {
                            self.flush_regmem(ops);
                            let op = BackendOp::ProcessVertexList { count, src_addr, dst_addr };
                            proof {
                                lemma_ops_view_push(ops@, op);
                            }
                            ops.push(op);
                        },
                        VDPCommand::DrawList { topology, count, addr } => {
                            match topology {
                                Topology::TriangleList => {
                                    self.flush_regmem(ops);
                                    let op = BackendOp::DrawTriangleList { count, addr };
                                    proof {
                                        lemma_ops_view_push(ops@, op);
                                    }
                                    ops.push(op);
                                },
                                _ => {},
                            }
                        },
                        VDPCommand::ClearColor { color } => {
                            let op = BackendOp::ClearColor { color };
                            proof {
                                lemma_ops_view_push(ops@, op);
                            }
                            ops.push(op);
                        },
                        VDPCommand::ClearDepth { depth } => {
                            let op = BackendOp::ClearDepth { depth };
                            proof {
                                lemma_ops_view_push(ops@, op);
                            }
                            ops.push(op);
                        },
                        VDPCommand::SwapBuffers { copy_target } => {},
                        VDPCommand::EndOfQueue { token } => {
                            self.last_cmd_tok.push_back(token);
                            return ;
                        },
                    }
                    at = next;
                },
            }
        }
    }
}

impl Peripheral for VDP {
    /// A guest read through the bus: register `addr` of the display
    /// processor.
    fn read(&mut self, addr: u32) -> (value: u32)
        ensures
            (final(self)@, value) == read_reg(old(self)@, addr as usize),
    {
        self.get_reg(addr as usize)
    }

    /// A guest write through the bus.
    fn write(&mut self, addr: u32, val: u32)
        ensures
            final(self)@ == write_reg(old(self)@, addr as usize, val),
    {
        self.set_reg(addr as usize, val)
    }
}

/// Whether `after` is `before` but for the recorded fault.
pub open spec fn same_but_fault(before: Trace, after: Trace) -> bool {
    after == faulted(before, after.state.err_mode)
}

/// What running a command buffer leaves alone, and how it ends.
///
/// A buffer changes neither video memory nor the queue of submitted
/// buffers, the cable, the display flags or the reset state; it keeps the
/// number of registers and only adds to the backend work. It ends in one of
/// two ways: with its token appended to the completion tokens and the
/// recorded fault as it was, or with a fault recorded and the completion
/// tokens as they were. A fault never comes with a token.
pub proof fn lemma_buffer_ends_in_token_or_fault(t: Trace, addr: u32)
    requires
        t.state.wf(),
    ensures
        ({
            let r = run_buffer(t, addr);
            &&& r.state.wf()
            &&& r.state.vram == t.state.vram
            &&& r.state.cmd_fifo == t.state.cmd_fifo
            &&& r.state.cable == t.state.cable
            &&& r.state.display_enable == t.state.display_enable
            &&& r.state.display_interlace == t.state.display_interlace
            &&& r.state.reset_state == t.state.reset_state
            &&& t.ops.is_prefix_of(r.ops)
            &&& {
                ||| r.state.tokens == t.state.tokens && r.state.err_mode != ErrorMode::NoError
                ||| {
                    &&& r.state.tokens.len() == t.state.tokens.len() + 1
                    &&& r.state.tokens.drop_last() == t.state.tokens
                    &&& r.state.err_mode == t.state.err_mode
                }
            }
        }),
{
    if addr % 4 == 0 {
        lemma_interpret_frame(t, addr as int);
    }
}

proof fn lemma_decoded_register_exists(vram: Seq<u32>, at: int)
    ensures
        match decode(vram, at) {
            Ok((VDPCommand::WriteInternalRegister { reg, val }, next)) => reg < INTERNALREG_COUNT,
            _ => true,
        },
{
    if 0 <= at < vram.len() {
        let arg: u32 = vram[at] >> 8;
        assert(arg & 0xFF < 256) by (bit_vector);
    }
}

proof fn lemma_interpret_frame(t: Trace, at: int)
    requires
        t.state.wf(),
    ensures
        ({
            let r = interpret(t, at);
            &&& r.state.wf()
            &&& r.state.vram == t.state.vram
            &&& r.state.cmd_fifo == t.state.cmd_fifo
            &&& r.state.cable == t.state.cable
            &&& r.state.display_enable == t.state.display_enable
            &&& r.state.display_interlace == t.state.display_interlace
            &&& r.state.reset_state == t.state.reset_state
            &&& t.ops.is_prefix_of(r.ops)
            &&& {
                ||| r.state.tokens == t.state.tokens && r.state.err_mode != ErrorMode::NoError
                ||| {
                    &&& r.state.tokens.len() == t.state.tokens.len() + 1
                    &&& r.state.tokens.drop_last() == t.state.tokens
                    &&& r.state.err_mode == t.state.err_mode
                }
            }
        }),
    decreases t.state.vram.len() - at,
{
    lemma_decoded_register_exists(t.state.vram, at);
    match decode(t.state.vram, at) {
        Err(err) => {},
        Ok((cmd, next)) => {
            if !(cmd is EndOfQueue) {
                lemma_interpret_frame(execute(t, cmd), next);
            }
        },
    }
}

/// A buffer that does not start on a multiple of four is not interpreted
/// at all: the address fault is recorded, and neither the registers nor the
/// completion tokens nor anything else changes.
pub proof fn lemma_misaligned_buffer_faults(t: Trace, addr: u32)
    requires
        addr % 4 != 0,
    ensures
        run_buffer(t, addr) == faulted(t, ErrorMode::AddressError),
        run_buffer(t, addr).state.err_mode == ErrorMode::AddressError,
        run_buffer(t, addr).state.tokens == t.state.tokens,
        run_buffer(t, addr).state.regs == t.state.regs,
        run_buffer(t, addr).ops == t.ops,
{
}

/// Whether the opcode in `hdr` is not defined.
pub open spec fn undefined_opcode(hdr: u32) -> bool {
    hdr & 0xFF > OP_CLEAR_DEPTH && hdr & 0xFF != OP_END_OF_QUEUE
}

/// An opcode that is not defined halts the buffer where it stands: the
/// command fault is recorded and nothing else changes, so that no token is
/// reported for the buffer.
pub proof fn lemma_undefined_opcode_halts(t: Trace, at: int)
    requires
        0 <= at < t.state.vram.len(),
        undefined_opcode(t.state.vram[at]),
    ensures
        interpret(t, at) == faulted(t, ErrorMode::CmdError),
{
}

/// A fault does not stop what follows: a buffer runs after a faulted one as
/// it would have run without the fault. The two outcomes differ at most in
/// the fault on record, which stays from the earlier buffer unless the
/// later one faults too.
pub proof fn lemma_fault_does_not_stop_next(t: Trace, err: ErrorMode, addr: u32)
    requires
        t.state.wf(),
    ensures
        same_but_fault(run_buffer(t, addr), run_buffer(faulted(t, err), addr)),
        run_buffer(faulted(t, err), addr).state.err_mode == if run_buffer(t, addr).state.tokens
            == t.state.tokens {
            run_buffer(t, addr).state.err_mode
        } else {
            err
        },
{
    if addr % 4 == 0 {
        lemma_interpret_after_fault(t, err, addr as int);
    }
}

proof fn lemma_interpret_after_fault(t: Trace, err: ErrorMode, at: int)
    requires
        t.state.wf(),
    ensures
        same_but_fault(interpret(t, at), interpret(faulted(t, err), at)),
        interpret(faulted(t, err), at).state.err_mode == if interpret(t, at).state.tokens
            == t.state.tokens {
            interpret(t, at).state.err_mode
        } else {
            err
        },
    decreases t.state.vram.len() - at,
{
    match decode(t.state.vram, at) {
        Err(e) => {},
        Ok((cmd, next)) => {
            lemma_decoded_register_exists(t.state.vram, at);
            if !(cmd is EndOfQueue) {
                lemma_interpret_after_fault(execute(t, cmd), err, next);
                lemma_interpret_frame(execute(t, cmd), next);
            }
        },
    }
}

/// The buffers of one tick run one after the other: running a list of
/// buffers is running its first part and then the rest, whatever the first
/// part ended in.
pub proof fn lemma_run_buffers_in_turn(t: Trace, first: Seq<u32>, rest: Seq<u32>)
    ensures
        run_buffers(t, first + rest) == run_buffers(run_buffers(t, first), rest),
    decreases first.len(),
{
    if first.len() > 0 {
        assert((first + rest).drop_first() =~= first.drop_first() + rest);
        lemma_run_buffers_in_turn(run_buffer(t, first[0]), first.drop_first(), rest);
    }
}

/// A tick leaves no submitted buffer behind and never touches video memory.
pub proof fn lemma_tick_drains_queue(s: VdpState)
    requires
        s.wf(),
    ensures
        tick_trace(s).state.cmd_fifo == Seq::<u32>::empty(),
        tick_trace(s).state.vram == s.vram,
        tick_trace(s).state.wf(),
{
    lemma_run_buffers_frame(
        Trace { state: VdpState { cmd_fifo: Seq::empty(), ..s }, ops: Seq::empty() },
        s.cmd_fifo,
    );
}

proof fn lemma_run_buffers_frame(t: Trace, addrs: Seq<u32>)
    requires
        t.state.wf(),
    ensures
        run_buffers(t, addrs).state.cmd_fifo == t.state.cmd_fifo,
        run_buffers(t, addrs).state.vram == t.state.vram,
        run_buffers(t, addrs).state.wf(),
    decreases addrs.len(),
{
    if addrs.len() > 0 {
        lemma_buffer_ends_in_token_or_fault(t, addrs[0]);
        lemma_run_buffers_frame(run_buffer(t, addrs[0]), addrs.drop_first());
    }
}

/// The register file reaches the backend once for any number of writes:
/// sending it when nothing was written since the last time sends nothing,
/// and sending it clears the mark that a register was written.
pub proof fn lemma_flush_sends_once(t: Trace)
    ensures
        flushed(flushed(t)) == flushed(t),
        !flushed(t).state.regs_dirty,
        !t.state.regs_dirty ==> flushed(t) == t,
        t.state.regs_dirty ==> flushed(t).ops == t.ops.push(
            BackendOpView::LoadRegisters { regs: t.state.regs },
        ),
{
}

/// The internal registers change by the register write command and by
/// nothing else: no guest access to the register window changes them, and
/// no other command does.
pub proof fn lemma_registers_change_only_by_command(
    t: Trace,
    reg: usize,
    value: u32,
    cmd: VDPCommand,
)
    ensures
        read_reg(t.state, reg).0.regs == t.state.regs,
        write_reg(t.state, reg, value).regs == t.state.regs,
        !(cmd is WriteInternalRegister) ==> execute(t, cmd).state.regs == t.state.regs,
{
}

/// The status register shows the reset state, the empty submission queue
/// and the fault on record each in its own bits, and nothing else. The bit
/// for a full submission queue is never set: the queue has no bound.
pub proof fn lemma_status_bits(s: VdpState)
    ensures
        status_word(s) & STATUSBIT_RESET != 0 <==> s.reset_state,
        status_word(s) & STATUSBIT_CMDFIFOEMPTY != 0 <==> s.cmd_fifo.len() == 0,
        status_word(s) & STATUSBIT_CMDFIFOFULL == 0,
        status_word(s) & STATUSBIT_ERR_MASK == error_bits(s.err_mode),
        status_word(s) & !(STATUSBIT_RESET | STATUSBIT_CMDFIFOEMPTY | STATUSBIT_ERR_MASK) == 0,
{
    let a: u32 = if s.reset_state { 1 } else { 0 };
    let b: u32 = if s.cmd_fifo.len() == 0 { 2 } else { 0 };
    let c: u32 = error_bits(s.err_mode);
    assert({
        &&& ((a | b | c) & 1 != 0 <==> a != 0)
        &&& ((a | b | c) & 2 != 0 <==> b != 0)
        &&& (a | b | c) & 4 == 0
        &&& (a | b | c) & 0x18 == c
        &&& (a | b | c) & !(1u32 | 2u32 | 0x18u32) == 0
    }) by (bit_vector)
        requires
            a == 0 || a == 1,
            b == 0 || b == 2,
            c == 0 || c == 8 || c == 0x10,
    ;
}

/// The display mode register shows the cable in its two low bits and the
/// two flags each in its own bit, and after a write of `value` it reads
/// back the two flag bits of `value` beside the cable.
pub proof fn lemma_display_mode_bits(s: VdpState, value: u32)
    ensures
        display_mode_word(s) & DISPLAYBIT_CABLE_MASK == cable_bits(s.cable),
        display_mode_word(s) & DISPLAYBIT_ENABLE != 0 <==> s.display_enable,
        display_mode_word(s) & DISPLAYBIT_INTERLACE != 0 <==> s.display_interlace,
        display_mode_word(write_reg(s, REG_DISPLAYMODE, value)) == cable_bits(s.cable) | (value & (
        DISPLAYBIT_ENABLE | DISPLAYBIT_INTERLACE)),
{
    let a: u32 = cable_bits(s.cable);
    let b: u32 = if s.display_enable { 4 } else { 0 };
    let c: u32 = if s.display_interlace { 8 } else { 0 };
    assert({
        &&& (a | b | c) & 3 == a
        &&& ((a | b | c) & 4 != 0 <==> b != 0)
        &&& ((a | b | c) & 8 != 0 <==> c != 0)
    }) by (bit_vector)
        requires
            a <= 3,
            b == 0 || b == 4,
            c == 0 || c == 8,
    ;
    let e: u32 = if value & 4 != 0 { 4 } else { 0 };
    let f: u32 = if value & 8 != 0 { 8 } else { 0 };
    assert((a | e | f) == a | (value & (4u32 | 8u32))) by (bit_vector)
        requires
            e == (if value & 4 != 0 { 4u32 } else { 0 }),
            f == (if value & 8 != 0 { 8u32 } else { 0 }),
    ;
}

} // verus!
