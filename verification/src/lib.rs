//! Cycle-accurate execution core for a Game Boy-class 8-bit CPU.
//!
//! The crate models the register file, the operand-addressing modes and the
//! resumable cycle-stepping engine that lets one logical instruction span
//! several discrete calls, one machine cycle each.  Every multi-cycle
//! operation is an explicit state machine whose one-call transition is a
//! spec function; the executable code is proved to follow it exactly.

pub mod bus;
pub mod registers;
pub mod cpu;
