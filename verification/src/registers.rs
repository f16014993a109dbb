//! The CPU-visible register file: eight 8-bit registers, the 16-bit
//! stack pointer and program counter, and the composed 16-bit pairs.

use vstd::prelude::*;

verus! {

/// Low byte of a 16-bit word.
pub open spec fn lo8(v: u16) -> u8 {
    v as u8
}

/// High byte of a 16-bit word.
pub open spec fn hi8(v: u16) -> u8 {
    (v >> 8) as u8
}

/// Composes a 16-bit word from a high and a low byte.
pub open spec fn word(hi: u8, lo: u8) -> u16 {
    ((hi as u16) << 8) | (lo as u16)
}

/// The program counter after a fetch: advanced by one, wrapping at the
/// end of the address space.
pub open spec fn wrap_inc(v: u16) -> u16 {
    if v == 0xFFFF {
        0
    } else {
        (v + 1) as u16
    }
}

/// A 16-bit value decreased by one, wrapping at zero.
pub open spec fn wrap_dec(v: u16) -> u16 {
    if v == 0 {
        0xFFFF
    } else {
        (v - 1) as u16
    }
}

/// Splitting a word into its bytes and recomposing them gives it back.
pub proof fn lemma_word_split(v: u16)
    ensures
        word(hi8(v), lo8(v)) == v,
{
    assert(((((v >> 8) as u8) as u16) << 8) | ((v as u8) as u16) == v) by (bit_vector);
}

/// The bytes of a composed word are the bytes it was composed from.
pub proof fn lemma_word_bytes(hi: u8, lo: u8)
    ensures
        hi8(word(hi, lo)) == hi,
        lo8(word(hi, lo)) == lo,
{
    assert(((((hi as u16) << 8) | (lo as u16)) >> 8) as u8 == hi) by (bit_vector);
    assert((((hi as u16) << 8) | (lo as u16)) as u8 == lo) by (bit_vector);
}

/// Composes a 16-bit word from a high and a low byte.
pub fn make_word(hi: u8, lo: u8) -> (r: u16)
    ensures
        r == word(hi, lo),
{
    ((hi as u16) << 8) | (lo as u16)
}

/// All CPU-visible register state.  The low nibble of `f` never holds a
/// one bit: only the top nibble carries the Zero, Subtract, Half-carry
/// and Carry flags.
pub struct Registers {
    pub a: u8,
    pub b: u8,
    pub c: u8,
    pub d: u8,
    pub e: u8,
    pub h: u8,
    pub l: u8,
    pub f: u8,
    pub pc: u16,
    pub sp: u16,
}

impl Registers {
    /// Well-formedness: the flag register's low nibble reads as zero.
    pub open spec fn wf(self) -> bool {
        self.f & 0x0F == 0
    }

    /// A register file with every register cleared.
    pub fn new() -> (r: Registers)
        ensures
            r == (Registers {
                a: 0u8, b: 0u8, c: 0u8, d: 0u8, e: 0u8, h: 0u8, l: 0u8, f: 0u8,
                pc: 0u16, sp: 0u16,
            }),
            r.wf(),
    {
        let r = Registers { a: 0, b: 0, c: 0, d: 0, e: 0, h: 0, l: 0, f: 0, pc: 0, sp: 0 };
        proof {
            assert(0u8 & 0x0F == 0) by (bit_vector);
        }
        r
    }

    /// The AF pair: A is the high byte, F the low byte.
    pub fn af(&self) -> (r: u16)
        ensures
            r == word(self.a, self.f),
    {
        ((self.a as u16) << 8) | (self.f as u16)
    }

    /// The BC pair: B is the high byte, C the low byte.
    pub fn bc(&self) -> (r: u16)
        ensures
            r == word(self.b, self.c),
    {
        ((self.b as u16) << 8) | (self.c as u16)
    }

    /// The DE pair: D is the high byte, E the low byte.
    pub fn de(&self) -> (r: u16)
        ensures
            r == word(self.d, self.e),
    {
        ((self.d as u16) << 8) | (self.e as u16)
    }

    /// The HL pair: H is the high byte, L the low byte.
    pub fn hl(&self) -> (r: u16)
        ensures
            r == word(self.h, self.l),
    {
        ((self.h as u16) << 8) | (self.l as u16)
    }

    /// Writes the AF pair.  The low nibble of the stored flag byte is
    /// masked to zero, whatever was nominally written.
    pub fn write_af(&mut self, v: u16)
        ensures
            *final(self) == (Registers { a: hi8(v), f: lo8(v) & 0xF0, ..*old(self) }),
            final(self).wf(),
    {
        self.a = (v >> 8) as u8;
        self.f = (v as u8) & 0xF0;
        proof {
            assert(((v as u8) & 0xF0) & 0x0F == 0) by (bit_vector);
        }
    }

    /// Writes the BC pair.
    pub fn write_bc(&mut self, v: u16)
        ensures
            *final(self) == (Registers { b: hi8(v), c: lo8(v), ..*old(self) }),
    {
        self.b = (v >> 8) as u8;
        self.c = v as u8;
    }

    /// Writes the DE pair.
    pub fn write_de(&mut self, v: u16)
        ensures
            *final(self) == (Registers { d: hi8(v), e: lo8(v), ..*old(self) }),
    {
        self.d = (v >> 8) as u8;
        self.e = v as u8;
    }

    /// Writes the HL pair.
    pub fn write_hl(&mut self, v: u16)
        ensures
            *final(self) == (Registers { h: hi8(v), l: lo8(v), ..*old(self) }),
    {
        self.h = (v >> 8) as u8;
        self.l = v as u8;
    }
}

} // verus!
