//! The properties the execution core is answerable to, each proved once
//! and for all over the spec functions that the executable contracts
//! use.

use vstd::prelude::*;
use crate::registers::{Registers, hi8, lo8, word, wrap_inc, wrap_dec, lemma_word_split};
use crate::cpu::operands::{Reg8, Reg16, Indirect, Direct8, reg8_sel, reg8_store, reg16_sel, reg16_store,
    ind_addr, ind_post_regs};
use crate::cpu::{Cpu, Ctx, ByteStage, CpuError, imm8_step, imm16_step, ind_read_step,
    dir8_read_step, dir16_write_step, decode_step};

verus! {

/// Register round-trip: writing any byte to any 8-bit register and
/// reading that register back gives the byte, for every value.
pub proof fn lemma_reg8_round_trip(regs: Registers, r: Reg8, v: u8)
    ensures
        reg8_sel(reg8_store(regs, r, v), r) == v,
{
}

/// Writing one 8-bit register leaves every other 8-bit register, the
/// flags and the 16-bit registers alone.
pub proof fn lemma_reg8_store_frame(regs: Registers, r: Reg8, s: Reg8, v: u8)
    ensures
        r != s ==> reg8_sel(reg8_store(regs, r, v), s) == reg8_sel(regs, s),
        reg8_store(regs, r, v).f == regs.f,
        reg8_store(regs, r, v).pc == regs.pc,
        reg8_store(regs, r, v).sp == regs.sp,
{
}

/// Pair composition: a 16-bit store to a pair puts the value's high
/// byte in the pair's high register and its low byte in the low one,
/// and reading the pair back gives the stored value — exactly, except
/// through AF, where the flag byte's low nibble is masked away.
pub proof fn lemma_reg16_round_trip(regs: Registers, p: Reg16, v: u16)
    ensures
        !(p is AF) ==> reg16_sel(reg16_store(regs, p, v), p) == v,
        p is AF ==> reg16_sel(reg16_store(regs, p, v), p) == v & 0xFFF0,
        reg16_store(regs, Reg16::BC, v).b == hi8(v),
        reg16_store(regs, Reg16::BC, v).c == lo8(v),
{
    lemma_word_split(v);
    assert(word(hi8(v), lo8(v) & 0xF0) == v & 0xFFF0) by (bit_vector);
}

/// Flag masking: whatever word is stored through AF, the flag byte's
/// low nibble reads as zero afterwards.
pub proof fn lemma_af_flag_mask(regs: Registers, v: u16)
    ensures
        reg16_store(regs, Reg16::AF, v).f & 0x0F == 0,
{
    assert((lo8(v) & 0xF0) & 0x0F == 0) by (bit_vector);
}

/// Every register store preserves the flag-register invariant: the low
/// nibble of the flags stays zero.
pub proof fn lemma_store_preserves_wf(regs: Registers, r: Reg8, p: Reg16, v8: u8, v16: u16)
    requires
        regs.wf(),
    ensures
        reg8_store(regs, r, v8).wf(),
        reg16_store(regs, p, v16).wf(),
{
    assert((lo8(v16) & 0xF0) & 0x0F == 0) by (bit_vector);
}

/// NOP semantics: with the NOP opcode current, one decode call succeeds,
/// consumes exactly one machine cycle fetching the next opcode, advances
/// the program counter by exactly one, and leaves every register and
/// flag bit unchanged.
pub proof fn lemma_nop(pre: Cpu, mem: Seq<u8>)
    requires
        !pre.ctx.cb,
        pre.ctx.opcode == 0x00,
    ensures
        ({
            let (post, r) = decode_step(pre, mem);
            &&& r is Ok
            &&& post.regs == (Registers { pc: wrap_inc(pre.regs.pc), ..pre.regs })
            &&& post.ctx == (Ctx { opcode: mem[pre.regs.pc as int], cb: false, ..pre.ctx })
        }),
{
}

/// Unknown opcode: decoding a byte with no registered handler reports
/// the fatal condition, naming the byte and the opcode space, and
/// leaves the registers, the memory and the whole execution context
/// untouched — never a silent no-op, never a partial mutation.
pub proof fn lemma_unknown_opcode(pre: Cpu, mem: Seq<u8>)
    requires
        !pre.ctx.cb,
        pre.ctx.opcode != 0x00,
        pre.ctx.opcode != 0xCB,
    ensures
        decode_step(pre, mem) == (pre, Result::<(), CpuError>::Err(CpuError::UnknownOpcode {
            opcode: pre.ctx.opcode,
            cb: false,
        })),
{
}

/// Immediate8 timing: from idle, the first call reads the byte at the
/// program counter and advances the counter by one but is not yet
/// complete; the second call delivers that byte and resets the machine
/// to idle, so a further read starts counting from its first cycle
/// again.
pub proof fn lemma_imm8_timing(c0: Cpu, mem: Seq<u8>)
    requires
        c0.ctx.imm8 is Fetch,
    ensures
        ({
            let (c1, r1) = imm8_step(c0, mem);
            let (c2, r2) = imm8_step(c1, mem);
            &&& r1 is None
            &&& c1.regs.pc == wrap_inc(c0.regs.pc)
            &&& r2 == Some(mem[c0.regs.pc as int])
            &&& c2 == (Cpu { ctx: (Ctx { imm8: ByteStage::Fetch, ..c0.ctx }), regs: c1.regs })
            &&& c2.ctx.imm8 is Fetch
        }),
{
}

/// Immediate16 timing and endianness: from idle, a full 16-bit
/// immediate read takes exactly three calls; it advances the program
/// counter by two and yields the little-endian composition of the two
/// fetched bytes — the first-fetched is the low byte.  The machine ends
/// idle again.
pub proof fn lemma_imm16_timing(c0: Cpu, mem: Seq<u8>)
    requires
        c0.ctx.imm8 is Fetch,
        c0.ctx.imm16 is Lo,
    ensures
        ({
            let (c1, r1) = imm16_step(c0, mem);
            let (c2, r2) = imm16_step(c1, mem);
            let (c3, r3) = imm16_step(c2, mem);
            &&& r1 is None
            &&& r2 is None
            &&& r3 == Some(word(mem[wrap_inc(c0.regs.pc) as int], mem[c0.regs.pc as int]))
            &&& c3.regs.pc == wrap_inc(wrap_inc(c0.regs.pc))
            &&& c3.ctx.imm8 is Fetch
            &&& c3.ctx.imm16 is Lo
            &&& c3 == (Cpu {
                regs: (Registers { pc: c3.regs.pc, ..c0.regs }),
                ctx: (Ctx { imm8: ByteStage::Fetch, ..c0.ctx }),
            })
        }),
{
}

/// The flag-register invariant survives execution: no engine step
/// touches the flag byte, so once its low nibble is zero it stays zero
/// through immediate fetches, indirect accesses and whole decoded
/// cycles alike.
pub proof fn lemma_steps_preserve_wf(pre: Cpu, mem: Seq<u8>, src: Indirect)
    requires
        pre.regs.wf(),
    ensures
        imm8_step(pre, mem).0.regs.wf(),
        imm16_step(pre, mem).0.regs.wf(),
        ind_read_step(pre, mem, src).0.regs.wf(),
        decode_step(pre, mem).0.regs.wf(),
{
}

/// Cycle-count composition, absolute direct read: the machine resumes
/// its inner 16-bit immediate exactly where the previous call left it,
/// so a full read from idle costs the immediate's three calls — the
/// memory access rides on the third — plus one delivery call: four in
/// all, and the program counter moves by exactly the two immediate
/// bytes.
pub proof fn lemma_direct_read_timing(c0: Cpu, mem: Seq<u8>)
    requires
        c0.ctx.idle(),
    ensures
        ({
            let (c1, r1) = dir8_read_step(c0, mem, Direct8::D);
            let (c2, r2) = dir8_read_step(c1, mem, Direct8::D);
            let (c3, r3) = dir8_read_step(c2, mem, Direct8::D);
            let (c4, r4) = dir8_read_step(c3, mem, Direct8::D);
            let addr = word(mem[wrap_inc(c0.regs.pc) as int], mem[c0.regs.pc as int]);
            &&& r1 is None
            &&& r2 is None
            &&& r3 is None
            &&& r4 == Some(mem[addr as int])
            &&& c4.regs.pc == wrap_inc(wrap_inc(c0.regs.pc))
            &&& c4.ctx.idle()
        }),
{
}

/// Cycle-count composition, high-page direct read: one 8-bit immediate
/// (two calls, the memory access riding on the second) plus one
/// delivery call — three in all — reading `0xFF00` plus the immediate
/// byte.
pub proof fn lemma_direct_high_page_read_timing(c0: Cpu, mem: Seq<u8>)
    requires
        c0.ctx.idle(),
    ensures
        ({
            let (c1, r1) = dir8_read_step(c0, mem, Direct8::DFF);
            let (c2, r2) = dir8_read_step(c1, mem, Direct8::DFF);
            let (c3, r3) = dir8_read_step(c2, mem, Direct8::DFF);
            let addr = 0xFF00u16 | (mem[c0.regs.pc as int] as u16);
            &&& r1 is None
            &&& r2 is None
            &&& r3 == Some(mem[addr as int])
            &&& c3.regs.pc == wrap_inc(c0.regs.pc)
            &&& c3.ctx.idle()
        }),
{
}

/// Cycle-count composition, direct 16-bit store: the three calls of the
/// address immediate (the low-byte store riding on the third), one call
/// storing the high byte one address above, and one reporting call —
/// five in all, leaving the value in memory little endian and every
/// machine idle again.
pub proof fn lemma_direct_word_store_timing(c0: Cpu, mem: Seq<u8>, val: u16)
    requires
        c0.ctx.idle(),
    ensures
        ({
            let (c1, m1, r1) = dir16_write_step(c0, mem, val);
            let (c2, m2, r2) = dir16_write_step(c1, m1, val);
            let (c3, m3, r3) = dir16_write_step(c2, m2, val);
            let (c4, m4, r4) = dir16_write_step(c3, m3, val);
            let (c5, m5, r5) = dir16_write_step(c4, m4, val);
            let addr = word(mem[wrap_inc(c0.regs.pc) as int], mem[c0.regs.pc as int]);
            &&& r1 is None
            &&& r2 is None
            &&& r3 is None
            &&& r4 is None
            &&& r5 == Some(())
            &&& m5 == mem.update(addr as int, lo8(val)).update(wrap_inc(addr) as int, hi8(val))
            &&& c5.regs.pc == wrap_inc(wrap_inc(c0.regs.pc))
            &&& c5.ctx.idle()
        }),
{
}

/// Indirect auto-increment and auto-decrement: an indirect read through
/// HL delivers, on its second call, the byte at the address HL held
/// when the read was issued; the increment kind leaves HL one higher,
/// the decrement kind one lower, and the plain kinds leave it alone.
pub proof fn lemma_indirect_read(c0: Cpu, mem: Seq<u8>, src: Indirect)
    requires
        c0.ctx.ind_read is Fetch,
    ensures
        ({
            let (c1, r1) = ind_read_step(c0, mem, src);
            let (c2, r2) = ind_read_step(c1, mem, src);
            &&& r1 is None
            &&& r2 == Some(mem[ind_addr(c0.regs, src) as int])
            &&& c2.regs == ind_post_regs(c0.regs, src)
            &&& src is HLI ==> word(c2.regs.h, c2.regs.l) == wrap_inc(word(c0.regs.h, c0.regs.l))
            &&& src is HLD ==> word(c2.regs.h, c2.regs.l) == wrap_dec(word(c0.regs.h, c0.regs.l))
            &&& c2.ctx.ind_read is Fetch
        }),
{
    lemma_word_split(wrap_inc(word(c0.regs.h, c0.regs.l)));
    lemma_word_split(wrap_dec(word(c0.regs.h, c0.regs.l)));
}

} // verus!
