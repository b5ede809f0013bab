//! The processor status flags as a structured set of named bits.
//!
//! Keeping each flag as a named boolean makes every instruction's flag
//! contract explicit and prevents accidental mutation of the always-set
//! Unused bit.  The packed byte layout (bit 7 down to bit 0:
//! Negative, Overflow, Unused, Break, Decimal, Interrupt-Disable, Zero,
//! Carry) is needed only where a status byte crosses the stack.

use vstd::prelude::*;

verus! {

/// The status-flag set.  Bit positions in the packed byte are given on
/// each field.
#[derive(Clone, Copy, PartialEq, Eq, Structural, Debug)]
pub struct Flags {
    /// Negative (bit 7).
    pub n: bool,
    /// Overflow (bit 6).
    pub v: bool,
    /// Unused (bit 5); forced set by reset and in every pushed status byte.
    pub u: bool,
    /// Break (bit 4); forced set in every pushed status byte.
    pub b: bool,
    /// Decimal mode (bit 3).  The flag is stored, set and cleared, but
    /// arithmetic in this core is always binary.
    pub d: bool,
    /// Interrupt disable (bit 2).
    pub i: bool,
    /// Zero (bit 1).
    pub z: bool,
    /// Carry (bit 0).
    pub c: bool,
}

impl Flags {
    /// All flags clear.
    pub fn all_clear() -> (f: Flags)
        ensures
            f == (Flags {
                n: false,
                v: false,
                u: false,
                b: false,
                d: false,
                i: false,
                z: false,
                c: false,
            }),
    {
        Flags { n: false, v: false, u: false, b: false, d: false, i: false, z: false, c: false }
    }
}

/// The packed status byte for a flag set.
pub open spec fn flags_to_byte(f: Flags) -> u8 {
    ((if f.n { 0x80int } else { 0 }) + (if f.v { 0x40int } else { 0 }) + (if f.u {
        0x20int
    } else {
        0
    }) + (if f.b { 0x10int } else { 0 }) + (if f.d { 0x08int } else { 0 }) + (if f.i {
        0x04int
    } else {
        0
    }) + (if f.z { 0x02int } else { 0 }) + (if f.c { 0x01int } else { 0 })) as u8
}

/// The flag set stored in a packed status byte.
pub open spec fn flags_of_byte(b: u8) -> Flags {
    Flags {
        n: (b / 0x80) % 2 == 1,
        v: (b / 0x40) % 2 == 1,
        u: (b / 0x20) % 2 == 1,
        b: (b / 0x10) % 2 == 1,
        d: (b / 0x08) % 2 == 1,
        i: (b / 0x04) % 2 == 1,
        z: (b / 0x02) % 2 == 1,
        c: b % 2 == 1,
    }
}

/// `f` with Zero set iff `value` is zero and Negative set iff bit 7 of
/// `value` is set; no other flag touched.
pub open spec fn zn(f: Flags, value: u8) -> Flags {
    Flags { z: value == 0, n: value >= 0x80, ..f }
}

/// `f` with Break and Unused forced set, as in every status byte pushed
/// on the stack.
pub open spec fn forced_bu(f: Flags) -> Flags {
    Flags { b: true, u: true, ..f }
}

impl Flags {
    /// Packs the flag set into a status byte.
    pub fn to_byte(&self) -> (b: u8)
        ensures
            b == flags_to_byte(*self),
    {
        let mut b: u8 = 0;
        if self.n {
            b += 0x80;
        }
        if self.v {
            b += 0x40;
        }
        if self.u {
            b += 0x20;
        }
        if self.b {
            b += 0x10;
        }
        if self.d {
            b += 0x08;
        }
        if self.i {
            b += 0x04;
        }
        if self.z {
            b += 0x02;
        }
        if self.c {
            b += 0x01;
        }
        b
    }

    /// Unpacks a status byte into a flag set, exactly as stored: no bit
    /// is forced beyond what the byte holds.
    pub fn from_byte(b: u8) -> (f: Flags)
        ensures
            f == flags_of_byte(b),
    {
        Flags {
            n: (b / 0x80) % 2 == 1,
            v: (b / 0x40) % 2 == 1,
            u: (b / 0x20) % 2 == 1,
            b: (b / 0x10) % 2 == 1,
            d: (b / 0x08) % 2 == 1,
            i: (b / 0x04) % 2 == 1,
            z: (b / 0x02) % 2 == 1,
            c: b % 2 == 1,
        }
    }
}

/// Status round-trip: unpacking a packed status byte gives back the
/// flag set that was packed, bit for bit — so a pulled status restores
/// exactly what the matching push stored.
pub proof fn lemma_flags_byte_round_trip(f: Flags)
    ensures
        flags_of_byte(flags_to_byte(f)) == f,
{
}

/// Sets Zero iff `value` is zero and Negative iff bit 7 of `value` is
/// set.  Shared by every load, transfer, increment/decrement, logical
/// and shift instruction.
pub fn update_zero_negative(flags: &mut Flags, value: u8)
    ensures
        *final(flags) == zn(*old(flags), value),
{
    flags.z = value == 0;
    flags.n = value >= 0x80;
}

} // verus!
