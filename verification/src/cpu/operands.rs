//! Operand kinds: the closed set of things an instruction can read from
//! or write to, together with the spec functions that say what each one
//! denotes over the register file.

use vstd::prelude::*;
use crate::registers::{Registers, hi8, lo8, word, wrap_inc, wrap_dec};

verus! {

/// An 8-bit register operand.
#[derive(Clone, Copy, Debug)]
pub enum Reg8 {
    A,
    B,
    C,
    D,
    E,
    H,
    L,
}

/// A 16-bit register or register-pair operand.
#[derive(Clone, Copy, Debug)]
pub enum Reg16 {
    AF,
    BC,
    DE,
    HL,
    SP,
}

/// An 8-bit immediate: the byte at the program counter.
#[derive(Clone, Copy, Debug)]
pub struct Imm8;

/// A 16-bit immediate: two bytes at the program counter, little endian.
#[derive(Clone, Copy, Debug)]
pub struct Imm16;

/// Memory addressed indirectly through a register pair.  `HLD` and `HLI`
/// additionally decrement or increment HL after the access; `CFF`
/// addresses the high page at `0xFF00 + C`.
#[derive(Clone, Copy, Debug)]
pub enum Indirect {
    BC,
    DE,
    HL,
    CFF,
    HLD,
    HLI,
}

/// Memory addressed directly by an immediate: `D` takes a full 16-bit
/// immediate address, `DFF` an 8-bit immediate offset into the high page
/// at `0xFF00`.
#[derive(Clone, Copy, Debug)]
pub enum Direct8 {
    D,
    DFF,
}

/// A branch condition over the flag bits: Zero set or clear, Carry set
/// or clear.
#[derive(Clone, Copy, Debug)]
pub enum Cond {
    NZ,
    Z,
    NC,
    C,
}

/// Memory addressed directly by a full 16-bit immediate, as the target
/// of a 16-bit store.
#[derive(Clone, Copy, Debug)]
pub struct Direct16;

/// The value an 8-bit register operand denotes.
pub open spec fn reg8_sel(regs: Registers, r: Reg8) -> u8 {
    match r {
        Reg8::A => regs.a,
        Reg8::B => regs.b,
        Reg8::C => regs.c,
        Reg8::D => regs.d,
        Reg8::E => regs.e,
        Reg8::H => regs.h,
        Reg8::L => regs.l,
    }
}

/// The register file after storing `v` in an 8-bit register.
pub open spec fn reg8_store(regs: Registers, r: Reg8, v: u8) -> Registers {
    match r {
        Reg8::A => Registers { a: v, ..regs },
        Reg8::B => Registers { b: v, ..regs },
        Reg8::C => Registers { c: v, ..regs },
        Reg8::D => Registers { d: v, ..regs },
        Reg8::E => Registers { e: v, ..regs },
        Reg8::H => Registers { h: v, ..regs },
        Reg8::L => Registers { l: v, ..regs },
    }
}

/// The value a 16-bit register operand denotes: a pair composes its two
/// halves, high byte first.
pub open spec fn reg16_sel(regs: Registers, p: Reg16) -> u16 {
    match p {
        Reg16::AF => word(regs.a, regs.f),
        Reg16::BC => word(regs.b, regs.c),
        Reg16::DE => word(regs.d, regs.e),
        Reg16::HL => word(regs.h, regs.l),
        Reg16::SP => regs.sp,
    }
}

/// The register file after storing `v` in a 16-bit register: both halves
/// of a pair are written, and a store to AF masks the flag byte's low
/// nibble to zero.
pub open spec fn reg16_store(regs: Registers, p: Reg16, v: u16) -> Registers {
    match p {
        Reg16::AF => Registers { a: hi8(v), f: lo8(v) & 0xF0, ..regs },
        Reg16::BC => Registers { b: hi8(v), c: lo8(v), ..regs },
        Reg16::DE => Registers { d: hi8(v), e: lo8(v), ..regs },
        Reg16::HL => Registers { h: hi8(v), l: lo8(v), ..regs },
        Reg16::SP => Registers { sp: v, ..regs },
    }
}

/// The effective address of an indirect operand.
pub open spec fn ind_addr(regs: Registers, i: Indirect) -> u16 {
    match i {
        Indirect::BC => word(regs.b, regs.c),
        Indirect::DE => word(regs.d, regs.e),
        Indirect::HL => word(regs.h, regs.l),
        Indirect::CFF => 0xFF00u16 | (regs.c as u16),
        Indirect::HLD => word(regs.h, regs.l),
        Indirect::HLI => word(regs.h, regs.l),
    }
}

/// The register file after an indirect access: `HLI` and `HLD` move HL
/// by one, every other kind leaves the registers alone.
pub open spec fn ind_post_regs(regs: Registers, i: Indirect) -> Registers {
    match i {
        Indirect::HLI => reg16_store(regs, Reg16::HL, wrap_inc(word(regs.h, regs.l))),
        Indirect::HLD => reg16_store(regs, Reg16::HL, wrap_dec(word(regs.h, regs.l))),
        _ => regs,
    }
}

/// Whether a branch condition holds of the flag bits: Z is bit 7 of the
/// flag register, C is bit 4.
pub open spec fn cond_holds(regs: Registers, c: Cond) -> bool {
    match c {
        Cond::NZ => regs.f & 0x80 == 0,
        Cond::Z => regs.f & 0x80 != 0,
        Cond::NC => regs.f & 0x10 == 0,
        Cond::C => regs.f & 0x10 != 0,
    }
}

} // verus!
