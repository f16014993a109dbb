//! A flat 64 KiB memory bus.
//!
//! The real peripheral set (cartridge, video, audio, timers) lives behind
//! the same two-call surface — `read(address)` and `write(address, value)`
//! — and is outside this core; a plain byte array is enough to drive the
//! execution engine and pins down exactly what each cycle observes.

use vstd::prelude::*;

verus! {

/// Number of addressable bytes: the full 16-bit address space.
pub const BUS_SIZE: usize = 0x10000;

/// A memory-mapped bus holding one byte per 16-bit address.
pub struct Bus {
    pub mem: Vec<u8>,
}

impl View for Bus {
    type V = Seq<u8>;

    open spec fn view(&self) -> Seq<u8> {
        self.mem@
    }
}

impl Bus {
    /// Well-formedness: every 16-bit address is backed by a byte.
    pub open spec fn wf(self) -> bool {
        self@.len() == BUS_SIZE
    }

    /// A bus with every byte cleared.
    pub fn new() -> (r: Bus)
        ensures
            r.wf(),
            forall|i: int| 0 <= i < BUS_SIZE ==> r@[i] == 0u8,
    {
        let mut mem: Vec<u8> = Vec::new();
        let mut n: usize = 0;
        while n < BUS_SIZE
            invariant
                mem@.len() == n,
                n <= BUS_SIZE,
                forall|i: int| 0 <= i < n ==> mem@[i] == 0u8,
            decreases BUS_SIZE - n,
        {
            mem.push(0);
            n = n + 1;
        }
        Bus { mem }
    }

    /// Reads the byte at `addr`.
    pub fn read(&self, addr: u16) -> (r: u8)
        requires
            self.wf(),
        ensures
            r == self@[addr as int],
    {
        self.mem[addr as usize]
    }

    /// Stores `val` at `addr`.
    pub fn write(&mut self, addr: u16, val: u8)
        requires
            old(self).wf(),
        ensures
            final(self).wf(),
            final(self)@ == old(self)@.update(addr as int, val),
    {
        self.mem.set(addr as usize, val);
    }
}

} // verus!
