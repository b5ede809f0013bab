//! A verified core for an 8-bit CPU of the 6502 family.
//!
//! The crate models the processor's registers and status flags, a flat
//! 64 KiB byte-addressable memory, the stack discipline on page one, the
//! thirteen addressing modes (including the documented indirect-jump
//! hardware quirk), a 256-entry opcode table, and the fetch-decode-execute
//! cycle with reset and break/interrupt sequencing.  Every state change is
//! specified against a mathematical model of the machine, and the executable
//! engine is proved to follow that model instruction by instruction.

pub mod addr;
pub mod arith;
pub mod cpu;
pub mod exec;
pub mod flags;
pub mod laws;
pub mod mem;
pub mod opcode;
