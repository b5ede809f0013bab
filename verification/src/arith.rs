//! Carry-chained binary addition and subtraction, and compare flags.
//!
//! Subtraction is addition of the one's complement of the operand, with
//! Carry acting as the complement of borrow — exactly the hardware rule,
//! so both operations share one overflow/carry analysis.

use vstd::prelude::*;

use crate::flags::{zn, Flags};
use crate::mem::wrap8;

verus! {

/// The full (unreduced) sum of an add-with-carry.
pub open spec fn adc_sum(a: u8, operand: u8, carry_in: bool) -> int {
    a + operand + (if carry_in {
        1int
    } else {
        0
    })
}

/// The 8-bit result of an add-with-carry.
pub open spec fn adc_result(a: u8, operand: u8, carry_in: bool) -> u8 {
    wrap8(adc_sum(a, operand, carry_in))
}

/// Carry out of an add-with-carry: unsigned overflow past 255.
pub open spec fn adc_carry(a: u8, operand: u8, carry_in: bool) -> bool {
    adc_sum(a, operand, carry_in) > 0xff
}

/// Signed overflow of an add-with-carry: the operands share a sign and
/// the result's sign differs from it.
pub open spec fn adc_overflow(a: u8, operand: u8, carry_in: bool) -> bool {
    ((a >= 0x80) == (operand >= 0x80)) && ((adc_result(a, operand, carry_in) >= 0x80) != (a
        >= 0x80))
}

/// The 8-bit result of a subtract-with-carry: addition of the one's
/// complement, carry in as the complement of borrow.
pub open spec fn sbc_result(a: u8, operand: u8, carry_in: bool) -> u8 {
    adc_result(a, (0xff - operand) as u8, carry_in)
}

/// Carry out of a subtract-with-carry: set iff no borrow occurred.
pub open spec fn sbc_carry(a: u8, operand: u8, carry_in: bool) -> bool {
    adc_carry(a, (0xff - operand) as u8, carry_in)
}

/// Signed overflow of a subtract-with-carry.
pub open spec fn sbc_overflow(a: u8, operand: u8, carry_in: bool) -> bool {
    adc_overflow(a, (0xff - operand) as u8, carry_in)
}

/// The flags after comparing register value `r` against memory operand
/// `m`: exactly the Negative, Zero and Carry a subtract would set, with
/// no result stored.
pub open spec fn cmp_flags(f: Flags, r: u8, m: u8) -> Flags {
    Flags { c: r >= m, z: r == m, n: wrap8(r - m) >= 0x80, ..f }
}

/// Adds `operand` and the incoming Carry to `a`, returning the 8-bit
/// result and setting Carry to the unsigned overflow and Overflow to the
/// signed-overflow rule.  Zero and Negative are not touched here.
pub fn update_carry_overflow_for_add(flags: &mut Flags, a: u8, operand: u8) -> (r: u8)
    ensures
        r == adc_result(a, operand, old(flags).c),
        *final(flags) == (Flags {
            c: adc_carry(a, operand, old(flags).c),
            v: adc_overflow(a, operand, old(flags).c),
            ..*old(flags)
        }),
{
    let carry_in: u16 = if flags.c {
        1
    } else {
        0
    };
    let sum: u16 = a as u16 + operand as u16 + carry_in;
    let r: u8 = (sum % 0x100) as u8;
    flags.c = sum > 0xff;
    flags.v = ((a >= 0x80) == (operand >= 0x80)) && ((r >= 0x80) != (a >= 0x80));
    r
}

/// Subtracts `operand` from `a` with borrow (the complement of Carry),
/// by adding the one's complement; flag effects as the hardware defines.
pub fn update_carry_overflow_for_sub(flags: &mut Flags, a: u8, operand: u8) -> (r: u8)
    ensures
        r == sbc_result(a, operand, old(flags).c),
        *final(flags) == (Flags {
            c: sbc_carry(a, operand, old(flags).c),
            v: sbc_overflow(a, operand, old(flags).c),
            ..*old(flags)
        }),
{
    update_carry_overflow_for_add(flags, a, 0xff - operand)
}

/// Compares `r` against `m`: sets Negative, Zero and Carry exactly as a
/// subtract would, without storing the difference.
pub fn compare(flags: &mut Flags, r: u8, m: u8)
    ensures
        *final(flags) == cmp_flags(*old(flags), r, m),
{
    flags.c = r >= m;
    flags.z = r == m;
    let diff: u8 = (((r as u16) + 0x100 - (m as u16)) % 0x100) as u8;
    flags.n = diff >= 0x80;
}

} // verus!
