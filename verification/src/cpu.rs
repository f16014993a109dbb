//! The CPU: execution context, operand read/write capabilities, and the
//! fetch/decode/execute cycle, all at machine-cycle granularity.
//!
//! Any operation that costs more than one machine cycle is an explicit
//! state machine held in the execution context.  One external call
//! advances it by one machine cycle; `None`/`Pending` means more cycles
//! are needed.  For each machine, a spec function gives its one-call
//! transition exactly, and the executable code is proved to follow it.

pub mod laws;
pub mod operands;

use vstd::prelude::*;
use crate::bus::Bus;
use crate::registers::{Registers, word, lo8, hi8, wrap_inc};
use crate::cpu::operands::{Reg8, Reg16, Imm8, Imm16, Indirect, Direct8, Direct16, Cond};
use crate::cpu::operands::{reg8_sel, reg8_store, reg16_sel, reg16_store, ind_addr, ind_post_regs,
    cond_holds};

verus! {

/// Read capability over an operand kind producing bytes.  `None` from
/// `read8` or `write8` means the operation needs more machine cycles and
/// must be called again; `Some` carries the completed result.
pub trait IO8<T: Copy>: Sized {
    /// When a read may be issued.
    spec fn read8_req(pre: Self, bus: Bus, src: T) -> bool;

    /// Exactly what one read call does.
    spec fn read8_ens(pre: Self, bus: Bus, src: T, post: Self, r: Option<u8>) -> bool;

    /// When a write may be issued.
    spec fn write8_req(pre: Self, bus: Bus, dst: T, val: u8) -> bool;

    /// Exactly what one write call does.
    spec fn write8_ens(pre: Self, bus: Bus, dst: T, val: u8, post: Self, post_bus: Bus,
        r: Option<()>) -> bool;

    fn read8(&mut self, bus: &Bus, src: T) -> (r: Option<u8>)
        requires
            Self::read8_req(*old(self), *bus, src),
        ensures
            Self::read8_ens(*old(self), *bus, src, *final(self), r),
    ;

    fn write8(&mut self, bus: &mut Bus, dst: T, val: u8) -> (r: Option<()>)
        requires
            Self::write8_req(*old(self), *old(bus), dst, val),
        ensures
            Self::write8_ens(*old(self), *old(bus), dst, val, *final(self), *final(bus), r),
    ;
}

/// Read and write capability over an operand kind producing words.
pub trait IO16<T: Copy>: Sized {
    /// When a read may be issued.
    spec fn read16_req(pre: Self, bus: Bus, src: T) -> bool;

    /// Exactly what one read call does.
    spec fn read16_ens(pre: Self, bus: Bus, src: T, post: Self, r: Option<u16>) -> bool;

    /// When a write may be issued.
    spec fn write16_req(pre: Self, bus: Bus, dst: T, val: u16) -> bool;

    /// Exactly what one write call does.
    spec fn write16_ens(pre: Self, bus: Bus, dst: T, val: u16, post: Self, post_bus: Bus,
        r: Option<()>) -> bool;

    fn read16(&mut self, bus: &Bus, src: T) -> (r: Option<u16>)
        requires
            Self::read16_req(*old(self), *bus, src),
        ensures
            Self::read16_ens(*old(self), *bus, src, *final(self), r),
    ;

    fn write16(&mut self, bus: &mut Bus, dst: T, val: u16) -> (r: Option<()>)
        requires
            Self::write16_req(*old(self), *old(bus), dst, val),
        ensures
            Self::write16_ens(*old(self), *old(bus), dst, val, *final(self), *final(bus), r),
    ;
}

/// A one-byte-producing step machine: `Fetch` is the idle state whose
/// next call issues the bus access; `Ready` holds the byte until the
/// call after that delivers it and resets the machine.
#[derive(Clone, Copy, Debug)]
pub enum ByteStage {
    Fetch,
    Ready(u8),
}

/// The 16-bit immediate machine: waiting for the low byte, waiting for
/// the high byte while holding the low one, or holding the composed word
/// for delivery.
#[derive(Clone, Copy, Debug)]
pub enum Imm16Stage {
    Lo,
    Hi(u8),
    Done(u16),
}

/// A one-byte store machine: `Store` issues the bus write, `Done`
/// reports completion on the following call and resets the machine.
#[derive(Clone, Copy, Debug)]
pub enum WriteStage {
    Store,
    Done,
}

/// The direct-addressed read machine: fetching the immediate address,
/// reading memory at that address, or holding the byte for delivery.
#[derive(Clone, Copy, Debug)]
pub enum Dir8ReadStage {
    Addr,
    Mem(u16),
    Ready(u8),
}

/// The direct-addressed byte store machine.
#[derive(Clone, Copy, Debug)]
pub enum Dir8WriteStage {
    Addr,
    Mem(u16),
    Done,
}

/// The direct-addressed word store machine: fetch the address, store the
/// low byte there, store the high byte one above, then report.
#[derive(Clone, Copy, Debug)]
pub enum Dir16WriteStage {
    Addr,
    Lo(u16),
    Hi(u16),
    Done,
}

/// The execution context: the opcode being executed, whether it lives in
/// the CB-prefixed opcode space, and the persisted cursor and scratch of
/// every step machine.  Each machine's state is reset to its initial
/// value exactly when the operation completes, never left mid-sequence.
pub struct Ctx {
    pub opcode: u8,
    pub cb: bool,
    pub imm8: ByteStage,
    pub imm16: Imm16Stage,
    pub ind_read: ByteStage,
    pub ind_write: WriteStage,
    pub dir8_read: Dir8ReadStage,
    pub dir8_write: Dir8WriteStage,
    pub dir16_write: Dir16WriteStage,
}

impl Ctx {
    /// Every step machine is in its initial state.
    pub open spec fn idle(self) -> bool {
        &&& self.imm8 is Fetch
        &&& self.imm16 is Lo
        &&& self.ind_read is Fetch
        &&& self.ind_write is Store
        &&& self.dir8_read is Addr
        &&& self.dir8_write is Addr
        &&& self.dir16_write is Addr
    }
}

/// A decode failure: the opcode (in the plain or the CB-prefixed space)
/// has no registered handler.  Execution cannot meaningfully continue,
/// but the caller is left to decide whether to halt, log or trap.
#[derive(Clone, Copy, Debug, PartialEq, Eq, Structural)]
pub enum CpuError {
    UnknownOpcode { opcode: u8, cb: bool },
}

/// The CPU: its register file and its execution context.  Both are owned
/// exclusively; the bus is only borrowed for the duration of each call.
pub struct Cpu {
    pub regs: Registers,
    pub ctx: Ctx,
}

impl Cpu {
    /// A CPU with cleared registers, an idle context and opcode zero.
    pub fn new() -> (r: Cpu)
        ensures
            r.regs == (Registers {
                a: 0u8, b: 0u8, c: 0u8, d: 0u8, e: 0u8, h: 0u8, l: 0u8, f: 0u8,
                pc: 0u16, sp: 0u16,
            }),
            r.ctx.opcode == 0u8,
            !r.ctx.cb,
            r.ctx.idle(),
            r.regs.wf(),
    {
        Cpu {
            regs: Registers::new(),
            ctx: Ctx {
                opcode: 0,
                cb: false,
                imm8: ByteStage::Fetch,
                imm16: Imm16Stage::Lo,
                ind_read: ByteStage::Fetch,
                ind_write: WriteStage::Store,
                dir8_read: Dir8ReadStage::Addr,
                dir8_write: Dir8WriteStage::Addr,
                dir16_write: Dir16WriteStage::Addr,
            },
        }
    }

    /// Whether a branch condition holds of the current flags.
    pub fn check_cond(&self, cond: Cond) -> (r: bool)
        ensures
            r == cond_holds(self.regs, cond),
    {
        match cond {
            Cond::NZ => self.regs.f & 0x80 == 0,
            Cond::Z => self.regs.f & 0x80 != 0,
            Cond::NC => self.regs.f & 0x10 == 0,
            Cond::C => self.regs.f & 0x10 != 0,
        }
    }
}

/// The escape opcode that selects the extended, CB-prefixed opcode
/// space.
pub const CB_PREFIX: u8 = 0xCB;

/// A completed opcode fetch: the byte at the program counter becomes the
/// current opcode, the counter advances by one, and decoding returns to
/// the plain opcode space.
pub open spec fn fetch_step(pre: Cpu, mem: Seq<u8>) -> Cpu {
    Cpu {
        regs: (Registers { pc: wrap_inc(pre.regs.pc), ..pre.regs }),
        ctx: (Ctx { opcode: mem[pre.regs.pc as int], cb: false, ..pre.ctx }),
    }
}

/// One call of the CB-prefix escape: one more fetch cycle obtains the
/// extended opcode, and the handler for it is looked up in the extended
/// table.  No extended opcode has a registered handler here, so the
/// lookup reports the decode failure.
pub open spec fn cb_prefix_step(pre: Cpu, mem: Seq<u8>) -> (Cpu, Result<(), CpuError>) {
    let (c, r) = imm8_step(pre, mem);
    match r {
        None => (c, Ok(())),
        Some(op) => (
            Cpu { ctx: (Ctx { opcode: op, cb: true, ..c.ctx }), ..c },
            Err(CpuError::UnknownOpcode { opcode: op, cb: true }),
        ),
    }
}

/// One call of the decoder: dispatch on the current opcode.  `NOP`
/// triggers the next fetch; the CB prefix escapes into the extended
/// space; an opcode with no registered handler is a decode failure that
/// leaves the whole machine state untouched.
pub open spec fn decode_step(pre: Cpu, mem: Seq<u8>) -> (Cpu, Result<(), CpuError>) {
    if pre.ctx.cb {
        (pre, Err(CpuError::UnknownOpcode { opcode: pre.ctx.opcode, cb: true }))
    } else if pre.ctx.opcode == 0x00 {
        (fetch_step(pre, mem), Ok(()))
    } else if pre.ctx.opcode == CB_PREFIX {
        cb_prefix_step(pre, mem)
    } else {
        (pre, Err(CpuError::UnknownOpcode { opcode: pre.ctx.opcode, cb: false }))
    }
}

impl Cpu {
    /// Advances the machine by exactly one machine cycle: resumes the
    /// instruction in progress, or fetches and begins the next one.
    pub fn emulate_cycle(&mut self, bus: &mut Bus) -> (r: Result<(), CpuError>)
        requires
            old(bus).wf(),
        ensures
            (*final(self), r) == decode_step(*old(self), old(bus)@),
            *final(bus) == *old(bus),
    {
        self.decode(bus)
    }

    /// Fetches the next opcode: one bus read at the program counter,
    /// which then advances by one.
    pub fn fetch(&mut self, bus: &Bus)
        requires
            bus.wf(),
        ensures
            *final(self) == fetch_step(*old(self), bus@),
    {
        self.ctx.opcode = bus.read(self.regs.pc);
        self.regs.pc = self.regs.pc.wrapping_add(1);
        self.ctx.cb = false;
    }

    /// Dispatches the current opcode to its handler, or reports the
    /// decode failure for an opcode with no registered handler.
    pub fn decode(&mut self, bus: &mut Bus) -> (r: Result<(), CpuError>)
        requires
            old(bus).wf(),
        ensures
            (*final(self), r) == decode_step(*old(self), old(bus)@),
            *final(bus) == *old(bus),
    {
        if self.ctx.cb {
            Err(CpuError::UnknownOpcode { opcode: self.ctx.opcode, cb: true })
        } else {
            match self.ctx.opcode {
                0x00 => {
                    self.nop(bus);
                    Ok(())
                },
                0xCB => self.cb_prefixed(bus),
                _ => Err(CpuError::UnknownOpcode { opcode: self.ctx.opcode, cb: false }),
            }
        }
    }

    /// The NOP handler: no register or memory effect of its own; it
    /// immediately triggers the next fetch, so the net cost is one
    /// machine cycle and the program counter moves by exactly one.
    pub fn nop(&mut self, bus: &Bus)
        requires
            bus.wf(),
        ensures
            *final(self) == fetch_step(*old(self), bus@),
    {
        self.fetch(bus);
    }

    /// The CB-prefix handler: fetches the extended opcode over one more
    /// cycle, then looks its handler up in the extended table.
    fn cb_prefixed(&mut self, bus: &Bus) -> (r: Result<(), CpuError>)
        requires
            bus.wf(),
        ensures
            (*final(self), r) == cb_prefix_step(*old(self), bus@),
    {
        let fetched = self.read8(bus, Imm8);
        match fetched {
            None => Ok(()),
            Some(op) => {
                self.ctx.opcode = op;
                self.ctx.cb = true;
                Err(CpuError::UnknownOpcode { opcode: op, cb: true })
            },
        }
    }
}

/// One call of the 8-bit immediate machine.  From idle it reads the
/// byte at the program counter, advances the counter by one and parks
/// the byte; the following call delivers the byte and resets the
/// machine, with no further effect.
pub open spec fn imm8_step(pre: Cpu, mem: Seq<u8>) -> (Cpu, Option<u8>) {
    match pre.ctx.imm8 {
        ByteStage::Fetch => (
            Cpu {
                regs: (Registers { pc: wrap_inc(pre.regs.pc), ..pre.regs }),
                ctx: (Ctx { imm8: ByteStage::Ready(mem[pre.regs.pc as int]), ..pre.ctx }),
            },
            None,
        ),
        ByteStage::Ready(v) => (
            Cpu { ctx: (Ctx { imm8: ByteStage::Fetch, ..pre.ctx }), ..pre },
            Some(v),
        ),
    }
}

/// One call of the 16-bit immediate machine.  It is built from two runs
/// of the 8-bit immediate machine and one assembly step; within one
/// call, a completed stage lets the next stage start, so that a full
/// read from idle takes exactly three calls and advances the program
/// counter by two.  The first-fetched byte is the low byte.
pub open spec fn imm16_step(pre: Cpu, mem: Seq<u8>) -> (Cpu, Option<u16>) {
    let s1 = match pre.ctx.imm16 {
        Imm16Stage::Lo => {
            let (c, r) = imm8_step(pre, mem);
            match r {
                Some(lo) => Cpu { ctx: (Ctx { imm16: Imm16Stage::Hi(lo), ..c.ctx }), ..c },
                None => c,
            }
        },
        _ => pre,
    };
    let s2 = match s1.ctx.imm16 {
        Imm16Stage::Hi(lo) => {
            let (c, r) = imm8_step(s1, mem);
            match r {
                Some(hi) => Cpu {
                    ctx: (Ctx { imm16: Imm16Stage::Done(word(hi, lo)), ..c.ctx }),
                    ..c
                },
                None => c,
            }
        },
        _ => s1,
    };
    match s2.ctx.imm16 {
        Imm16Stage::Done(v) => (
            Cpu { ctx: (Ctx { imm16: Imm16Stage::Lo, ..s2.ctx }), ..s2 },
            Some(v),
        ),
        _ => (s2, None),
    }
}

impl IO8<Imm8> for Cpu {
    open spec fn read8_req(pre: Cpu, bus: Bus, src: Imm8) -> bool {
        bus.wf()
    }

    open spec fn read8_ens(pre: Cpu, bus: Bus, src: Imm8, post: Cpu, r: Option<u8>) -> bool {
        (post, r) == imm8_step(pre, bus@)
    }

    /// An immediate is read-only by construction: no instruction ever
    /// writes one, so a write may never be issued.
    open spec fn write8_req(pre: Cpu, bus: Bus, dst: Imm8, val: u8) -> bool {
        false
    }

    open spec fn write8_ens(pre: Cpu, bus: Bus, dst: Imm8, val: u8, post: Cpu, post_bus: Bus,
        r: Option<()>) -> bool {
        r is None
    }

    /// One machine cycle of an 8-bit immediate read.
    fn read8(&mut self, bus: &Bus, src: Imm8) -> (r: Option<u8>) {
        match self.ctx.imm8 {
            ByteStage::Fetch => {
                let v = bus.read(self.regs.pc);
                self.regs.pc = self.regs.pc.wrapping_add(1);
                self.ctx.imm8 = ByteStage::Ready(v);
                None
            },
            ByteStage::Ready(v) => {
                self.ctx.imm8 = ByteStage::Fetch;
                Some(v)
            },
        }
    }

    fn write8(&mut self, bus: &mut Bus, dst: Imm8, val: u8) -> (r: Option<()>) {
        None
    }
}

impl IO16<Imm16> for Cpu {
    open spec fn read16_req(pre: Cpu, bus: Bus, src: Imm16) -> bool {
        bus.wf()
    }

    open spec fn read16_ens(pre: Cpu, bus: Bus, src: Imm16, post: Cpu, r: Option<u16>) -> bool {
        (post, r) == imm16_step(pre, bus@)
    }

    /// An immediate is read-only by construction: no instruction ever
    /// writes one, so a write may never be issued.
    open spec fn write16_req(pre: Cpu, bus: Bus, dst: Imm16, val: u16) -> bool {
        false
    }

    open spec fn write16_ens(pre: Cpu, bus: Bus, dst: Imm16, val: u16, post: Cpu, post_bus: Bus,
        r: Option<()>) -> bool {
        r is None
    }

    /// One machine cycle of a 16-bit immediate read.
    fn read16(&mut self, bus: &Bus, src: Imm16) -> (r: Option<u16>) {
        if let Imm16Stage::Lo = self.ctx.imm16 {
            let fetched = self.read8(bus, Imm8);
            if let Some(lo) = fetched {
                self.ctx.imm16 = Imm16Stage::Hi(lo);
            }
        }
        if let Imm16Stage::Hi(lo) = self.ctx.imm16 {
            let fetched = self.read8(bus, Imm8);
            if let Some(hi) = fetched {
                self.ctx.imm16 = Imm16Stage::Done(crate::registers::make_word(hi, lo));
            }
        }
        if let Imm16Stage::Done(v) = self.ctx.imm16 {
            self.ctx.imm16 = Imm16Stage::Lo;
            return Some(v);
        }
        None
    }

    fn write16(&mut self, bus: &mut Bus, dst: Imm16, val: u16) -> (r: Option<()>) {
        None
    }
}

/// One call of the indirect read machine.  From idle it reads the byte
/// at the address held in the named register pair and then applies the
/// pair's side effect (HL moves by one for the increment and decrement
/// kinds); the following call delivers the byte and resets the machine.
pub open spec fn ind_read_step(pre: Cpu, mem: Seq<u8>, src: Indirect) -> (Cpu, Option<u8>) {
    match pre.ctx.ind_read {
        ByteStage::Fetch => (
            Cpu {
                regs: ind_post_regs(pre.regs, src),
                ctx: (Ctx {
                    ind_read: ByteStage::Ready(mem[ind_addr(pre.regs, src) as int]),
                    ..pre.ctx
                }),
            },
            None,
        ),
        ByteStage::Ready(v) => (
            Cpu { ctx: (Ctx { ind_read: ByteStage::Fetch, ..pre.ctx }), ..pre },
            Some(v),
        ),
    }
}

/// One call of the indirect write machine: the store happens on the
/// first call, with the pair's side effect after the address has been
/// used; the following call reports completion and resets the machine.
pub open spec fn ind_write_step(pre: Cpu, mem: Seq<u8>, dst: Indirect, val: u8)
    -> (Cpu, Seq<u8>, Option<()>) {
    match pre.ctx.ind_write {
        WriteStage::Store => (
            Cpu {
                regs: ind_post_regs(pre.regs, dst),
                ctx: (Ctx { ind_write: WriteStage::Done, ..pre.ctx }),
            },
            mem.update(ind_addr(pre.regs, dst) as int, val),
            None,
        ),
        WriteStage::Done => (
            Cpu { ctx: (Ctx { ind_write: WriteStage::Store, ..pre.ctx }), ..pre },
            mem,
            Some(()),
        ),
    }
}

/// One call of the direct read machine.  Its effective address becomes
/// known once its immediate is assembled — the full word for the
/// absolute kind, `0xFF00` plus the immediate byte for the high-page
/// kind — and the memory read happens on the call the address
/// completes; the call after delivers the byte and resets the machine.
pub open spec fn dir8_read_step(pre: Cpu, mem: Seq<u8>, src: Direct8) -> (Cpu, Option<u8>) {
    let s1 = match pre.ctx.dir8_read {
        Dir8ReadStage::Addr => match src {
            Direct8::D => {
                let (c, r) = imm16_step(pre, mem);
                match r {
                    Some(addr) => Cpu {
                        ctx: (Ctx { dir8_read: Dir8ReadStage::Mem(addr), ..c.ctx }),
                        ..c
                    },
                    None => c,
                }
            },
            Direct8::DFF => {
                let (c, r) = imm8_step(pre, mem);
                match r {
                    Some(lo) => Cpu {
                        ctx: (Ctx {
                            dir8_read: Dir8ReadStage::Mem(0xFF00u16 | (lo as u16)),
                            ..c.ctx
                        }),
                        ..c
                    },
                    None => c,
                }
            },
        },
        _ => pre,
    };
    match s1.ctx.dir8_read {
        Dir8ReadStage::Mem(addr) => (
            Cpu {
                ctx: (Ctx { dir8_read: Dir8ReadStage::Ready(mem[addr as int]), ..s1.ctx }),
                ..s1
            },
            None,
        ),
        Dir8ReadStage::Ready(v) => (
            Cpu { ctx: (Ctx { dir8_read: Dir8ReadStage::Addr, ..s1.ctx }), ..s1 },
            Some(v),
        ),
        _ => (s1, None),
    }
}

/// One call of the direct write machine: fetch the immediate address,
/// store the byte there on the call the address completes, report on the
/// call after.
pub open spec fn dir8_write_step(pre: Cpu, mem: Seq<u8>, dst: Direct8, val: u8)
    -> (Cpu, Seq<u8>, Option<()>) {
    let s1 = match pre.ctx.dir8_write {
        Dir8WriteStage::Addr => match dst {
            Direct8::D => {
                let (c, r) = imm16_step(pre, mem);
                match r {
                    Some(addr) => Cpu {
                        ctx: (Ctx { dir8_write: Dir8WriteStage::Mem(addr), ..c.ctx }),
                        ..c
                    },
                    None => c,
                }
            },
            Direct8::DFF => {
                let (c, r) = imm8_step(pre, mem);
                match r {
                    Some(lo) => Cpu {
                        ctx: (Ctx {
                            dir8_write: Dir8WriteStage::Mem(0xFF00u16 | (lo as u16)),
                            ..c.ctx
                        }),
                        ..c
                    },
                    None => c,
                }
            },
        },
        _ => pre,
    };
    match s1.ctx.dir8_write {
        Dir8WriteStage::Mem(addr) => (
            Cpu { ctx: (Ctx { dir8_write: Dir8WriteStage::Done, ..s1.ctx }), ..s1 },
            mem.update(addr as int, val),
            None,
        ),
        Dir8WriteStage::Done => (
            Cpu { ctx: (Ctx { dir8_write: Dir8WriteStage::Addr, ..s1.ctx }), ..s1 },
            mem,
            Some(()),
        ),
        _ => (s1, mem, None),
    }
}

/// One call of the direct 16-bit store machine: fetch the full
/// immediate address, store the value's low byte there, its high byte
/// one address above (wrapping), then report.
pub open spec fn dir16_write_step(pre: Cpu, mem: Seq<u8>, val: u16)
    -> (Cpu, Seq<u8>, Option<()>) {
    let s1 = match pre.ctx.dir16_write {
        Dir16WriteStage::Addr => {
            let (c, r) = imm16_step(pre, mem);
            match r {
                Some(addr) => Cpu {
                    ctx: (Ctx { dir16_write: Dir16WriteStage::Lo(addr), ..c.ctx }),
                    ..c
                },
                None => c,
            }
        },
        _ => pre,
    };
    match s1.ctx.dir16_write {
        Dir16WriteStage::Lo(addr) => (
            Cpu { ctx: (Ctx { dir16_write: Dir16WriteStage::Hi(addr), ..s1.ctx }), ..s1 },
            mem.update(addr as int, lo8(val)),
            None,
        ),
        Dir16WriteStage::Hi(addr) => (
            Cpu { ctx: (Ctx { dir16_write: Dir16WriteStage::Done, ..s1.ctx }), ..s1 },
            mem.update(wrap_inc(addr) as int, hi8(val)),
            None,
        ),
        Dir16WriteStage::Done => (
            Cpu { ctx: (Ctx { dir16_write: Dir16WriteStage::Addr, ..s1.ctx }), ..s1 },
            mem,
            Some(()),
        ),
        _ => (s1, mem, None),
    }
}

impl Cpu {
    /// The effective address of an indirect operand.
    fn indirect_addr(&self, src: Indirect) -> (r: u16)
        ensures
            r == ind_addr(self.regs, src),
    {
        match src {
            Indirect::BC => self.regs.bc(),
            Indirect::DE => self.regs.de(),
            Indirect::HL => self.regs.hl(),
            Indirect::CFF => 0xFF00 | (self.regs.c as u16),
            Indirect::HLD => self.regs.hl(),
            Indirect::HLI => self.regs.hl(),
        }
    }

    /// Applies an indirect operand's side effect after the access: HL
    /// moves by one for the increment and decrement kinds.
    fn indirect_post(&mut self, src: Indirect)
        ensures
            final(self).regs == ind_post_regs(old(self).regs, src),
            final(self).ctx == old(self).ctx,
    {
        match src {
            Indirect::HLI => {
                let v = self.regs.hl().wrapping_add(1);
                self.regs.write_hl(v);
            },
            Indirect::HLD => {
                let v = self.regs.hl().wrapping_sub(1);
                self.regs.write_hl(v);
            },
            _ => {},
        }
    }
}

impl IO8<Indirect> for Cpu {
    open spec fn read8_req(pre: Cpu, bus: Bus, src: Indirect) -> bool {
        bus.wf()
    }

    open spec fn read8_ens(pre: Cpu, bus: Bus, src: Indirect, post: Cpu, r: Option<u8>) -> bool {
        (post, r) == ind_read_step(pre, bus@, src)
    }

    open spec fn write8_req(pre: Cpu, bus: Bus, dst: Indirect, val: u8) -> bool {
        bus.wf()
    }

    open spec fn write8_ens(pre: Cpu, bus: Bus, dst: Indirect, val: u8, post: Cpu, post_bus: Bus,
        r: Option<()>) -> bool {
        &&& (post, post_bus@, r) == ind_write_step(pre, bus@, dst, val)
        &&& post_bus.wf()
    }

    /// One machine cycle of an indirect read.
    fn read8(&mut self, bus: &Bus, src: Indirect) -> (r: Option<u8>) {
        match self.ctx.ind_read {
            ByteStage::Fetch => {
                let addr = self.indirect_addr(src);
                let v = bus.read(addr);
                self.indirect_post(src);
                self.ctx.ind_read = ByteStage::Ready(v);
                None
            },
            ByteStage::Ready(v) => {
                self.ctx.ind_read = ByteStage::Fetch;
                Some(v)
            },
        }
    }

    /// One machine cycle of an indirect write.
    fn write8(&mut self, bus: &mut Bus, dst: Indirect, val: u8) -> (r: Option<()>) {
        match self.ctx.ind_write {
            WriteStage::Store => {
                let addr = self.indirect_addr(dst);
                bus.write(addr, val);
                self.indirect_post(dst);
                self.ctx.ind_write = WriteStage::Done;
                None
            },
            WriteStage::Done => {
                self.ctx.ind_write = WriteStage::Store;
                Some(())
            },
        }
    }
}

impl IO8<Direct8> for Cpu {
    open spec fn read8_req(pre: Cpu, bus: Bus, src: Direct8) -> bool {
        bus.wf()
    }

    open spec fn read8_ens(pre: Cpu, bus: Bus, src: Direct8, post: Cpu, r: Option<u8>) -> bool {
        (post, r) == dir8_read_step(pre, bus@, src)
    }

    open spec fn write8_req(pre: Cpu, bus: Bus, dst: Direct8, val: u8) -> bool {
        bus.wf()
    }

    open spec fn write8_ens(pre: Cpu, bus: Bus, dst: Direct8, val: u8, post: Cpu, post_bus: Bus,
        r: Option<()>) -> bool {
        &&& (post, post_bus@, r) == dir8_write_step(pre, bus@, dst, val)
        &&& post_bus.wf()
    }

    /// One machine cycle of a direct-addressed read.
    fn read8(&mut self, bus: &Bus, src: Direct8) -> (r: Option<u8>) {
        if let Dir8ReadStage::Addr = self.ctx.dir8_read {
            match src {
                Direct8::D => {
                    let fetched = self.read16(bus, Imm16);
                    if let Some(addr) = fetched {
                        self.ctx.dir8_read = Dir8ReadStage::Mem(addr);
                    }
                },
                Direct8::DFF => {
                    let fetched = self.read8(bus, Imm8);
                    if let Some(lo) = fetched {
                        self.ctx.dir8_read = Dir8ReadStage::Mem(0xFF00 | (lo as u16));
                    }
                },
            }
        }
        if let Dir8ReadStage::Mem(addr) = self.ctx.dir8_read {
            let v = bus.read(addr);
            self.ctx.dir8_read = Dir8ReadStage::Ready(v);
            return None;
        }
        if let Dir8ReadStage::Ready(v) = self.ctx.dir8_read {
            self.ctx.dir8_read = Dir8ReadStage::Addr;
            return Some(v);
        }
        None
    }

    /// One machine cycle of a direct-addressed write.
    fn write8(&mut self, bus: &mut Bus, dst: Direct8, val: u8) -> (r: Option<()>) {
        if let Dir8WriteStage::Addr = self.ctx.dir8_write {
            match dst {
                Direct8::D => {
                    let fetched = self.read16(&*bus, Imm16);
                    if let Some(addr) = fetched {
                        self.ctx.dir8_write = Dir8WriteStage::Mem(addr);
                    }
                },
                Direct8::DFF => {
                    let fetched = self.read8(&*bus, Imm8);
                    if let Some(lo) = fetched {
                        self.ctx.dir8_write = Dir8WriteStage::Mem(0xFF00 | (lo as u16));
                    }
                },
            }
        }
        if let Dir8WriteStage::Mem(addr) = self.ctx.dir8_write {
            bus.write(addr, val);
            self.ctx.dir8_write = Dir8WriteStage::Done;
            return None;
        }
        if let Dir8WriteStage::Done = self.ctx.dir8_write {
            self.ctx.dir8_write = Dir8WriteStage::Addr;
            return Some(());
        }
        None
    }
}

impl IO16<Direct16> for Cpu {
    /// No instruction reads a 16-bit value through a direct operand: the
    /// kind exists only as the target of a 16-bit store, so a read may
    /// never be issued.
    open spec fn read16_req(pre: Cpu, bus: Bus, src: Direct16) -> bool {
        false
    }

    open spec fn read16_ens(pre: Cpu, bus: Bus, src: Direct16, post: Cpu, r: Option<u16>) -> bool {
        r is None
    }

    open spec fn write16_req(pre: Cpu, bus: Bus, dst: Direct16, val: u16) -> bool {
        bus.wf()
    }

    open spec fn write16_ens(pre: Cpu, bus: Bus, dst: Direct16, val: u16, post: Cpu, post_bus: Bus,
        r: Option<()>) -> bool {
        &&& (post, post_bus@, r) == dir16_write_step(pre, bus@, val)
        &&& post_bus.wf()
    }

    fn read16(&mut self, bus: &Bus, src: Direct16) -> (r: Option<u16>) {
        None
    }

    /// One machine cycle of a direct-addressed 16-bit store.
    fn write16(&mut self, bus: &mut Bus, dst: Direct16, val: u16) -> (r: Option<()>) {
        if let Dir16WriteStage::Addr = self.ctx.dir16_write {
            let fetched = self.read16(&*bus, Imm16);
            if let Some(addr) = fetched {
                self.ctx.dir16_write = Dir16WriteStage::Lo(addr);
            }
        }
        if let Dir16WriteStage::Lo(addr) = self.ctx.dir16_write {
            bus.write(addr, val as u8);
            self.ctx.dir16_write = Dir16WriteStage::Hi(addr);
            return None;
        }
        if let Dir16WriteStage::Hi(addr) = self.ctx.dir16_write {
            bus.write(addr.wrapping_add(1), (val >> 8) as u8);
            self.ctx.dir16_write = Dir16WriteStage::Done;
            return None;
        }
        if let Dir16WriteStage::Done = self.ctx.dir16_write {
            self.ctx.dir16_write = Dir16WriteStage::Addr;
            return Some(());
        }
        None
    }
}

impl IO8<Reg8> for Cpu {
    open spec fn read8_req(pre: Cpu, bus: Bus, src: Reg8) -> bool {
        true
    }

    open spec fn read8_ens(pre: Cpu, bus: Bus, src: Reg8, post: Cpu, r: Option<u8>) -> bool {
        &&& r == Some(reg8_sel(pre.regs, src))
        &&& post == pre
    }

    open spec fn write8_req(pre: Cpu, bus: Bus, dst: Reg8, val: u8) -> bool {
        true
    }

    open spec fn write8_ens(pre: Cpu, bus: Bus, dst: Reg8, val: u8, post: Cpu, post_bus: Bus,
        r: Option<()>) -> bool {
        &&& r == Some(())
        &&& post == (Cpu { regs: reg8_store(pre.regs, dst, val), ..pre })
        &&& post_bus == bus
    }

    /// A register read completes in the same call, with no bus access.
    fn read8(&mut self, bus: &Bus, src: Reg8) -> (r: Option<u8>) {
        Some(
            match src {
                Reg8::A => self.regs.a,
                Reg8::B => self.regs.b,
                Reg8::C => self.regs.c,
                Reg8::D => self.regs.d,
                Reg8::E => self.regs.e,
                Reg8::H => self.regs.h,
                Reg8::L => self.regs.l,
            },
        )
    }

    /// A register write completes in the same call, with no bus access.
    fn write8(&mut self, bus: &mut Bus, dst: Reg8, val: u8) -> (r: Option<()>) {
        match dst {
            Reg8::A => self.regs.a = val,
            Reg8::B => self.regs.b = val,
            Reg8::C => self.regs.c = val,
            Reg8::D => self.regs.d = val,
            Reg8::E => self.regs.e = val,
            Reg8::H => self.regs.h = val,
            Reg8::L => self.regs.l = val,
        }
        Some(())
    }
}

impl IO16<Reg16> for Cpu {
    open spec fn read16_req(pre: Cpu, bus: Bus, src: Reg16) -> bool {
        true
    }

    open spec fn read16_ens(pre: Cpu, bus: Bus, src: Reg16, post: Cpu, r: Option<u16>) -> bool {
        &&& r == Some(reg16_sel(pre.regs, src))
        &&& post == pre
    }

    open spec fn write16_req(pre: Cpu, bus: Bus, dst: Reg16, val: u16) -> bool {
        true
    }

    open spec fn write16_ens(pre: Cpu, bus: Bus, dst: Reg16, val: u16, post: Cpu, post_bus: Bus,
        r: Option<()>) -> bool {
        &&& r == Some(())
        &&& post == (Cpu { regs: reg16_store(pre.regs, dst, val), ..pre })
        &&& post_bus == bus
    }

    /// A register-pair read completes in the same call.
    fn read16(&mut self, bus: &Bus, src: Reg16) -> (r: Option<u16>) {
        Some(
            match src {
                Reg16::AF => self.regs.af(),
                Reg16::BC => self.regs.bc(),
                Reg16::DE => self.regs.de(),
                Reg16::HL => self.regs.hl(),
                Reg16::SP => self.regs.sp,
            },
        )
    }

    /// A register-pair write completes in the same call; both halves are
    /// written together, and AF masks the flag byte's low nibble.
    fn write16(&mut self, bus: &mut Bus, dst: Reg16, val: u16) -> (r: Option<()>) {
        match dst {
            Reg16::AF => self.regs.write_af(val),
            Reg16::BC => self.regs.write_bc(val),
            Reg16::DE => self.regs.write_de(val),
            Reg16::HL => self.regs.write_hl(val),
            Reg16::SP => self.regs.sp = val,
        }
        Some(())
    }
}

} // verus!
