//! The register file and the stack discipline on page one.
//!
//! The stack lives at addresses 0x0100–0x01FF; the stack pointer is an
//! 8-bit offset into that page.  Push writes, then decrements the pointer
//! (wrapping 0x00 to 0xFF); pull increments first (wrapping 0xFF to 0x00),
//! then reads.  Overflow and underflow are defined wrap-around, never a
//! failure.  Words are pushed high byte first, so the low byte ends on top.

use vstd::prelude::*;

use crate::flags::Flags;
use crate::mem::{
    byte_to_word, hi_byte, lo_byte, mem_word, word_of, wrap8, Memory, RESET_VECTOR_LOBYTE,
};

verus! {

/// The register file: program counter, stack pointer, accumulator, the
/// X and Y index registers, and the status flags.
#[derive(Clone, Copy, PartialEq, Eq, Structural, Debug)]
pub struct Cpu {
    /// Program counter.
    pub pc: u16,
    /// Stack pointer: an offset into page 0x0100.
    pub sp: u8,
    /// Accumulator.
    pub ac: u8,
    /// X index register.
    pub xr: u8,
    /// Y index register.
    pub yr: u8,
    /// Status flags.
    pub st: Flags,
}

impl Cpu {
    /// A power-on register file: every register zero, every flag clear.
    /// A reset must follow before execution.
    pub fn new() -> (c: Cpu)
        ensures
            c == (Cpu {
                pc: 0,
                sp: 0,
                ac: 0,
                xr: 0,
                yr: 0,
                st: (Flags {
                    n: false,
                    v: false,
                    u: false,
                    b: false,
                    d: false,
                    i: false,
                    z: false,
                    c: false,
                }),
            }),
    {
        Cpu { pc: 0, sp: 0, ac: 0, xr: 0, yr: 0, st: Flags::all_clear() }
    }
}

/// The memory address a stack offset denotes: within page 0x0100.
pub open spec fn stack_addr(sp: u8) -> u16 {
    (0x100 + sp) as u16
}

/// The stack pointer after a one-byte push.
pub open spec fn sp_after_push(sp: u8) -> u8 {
    wrap8(sp - 1)
}

/// The stack pointer after a one-byte pull.
pub open spec fn sp_after_pull(sp: u8) -> u8 {
    wrap8(sp + 1)
}

/// Memory after pushing one byte at stack offset `sp`.
pub open spec fn pushed_mem(m: Seq<u8>, sp: u8, value: u8) -> Seq<u8> {
    m.update(stack_addr(sp) as int, value)
}

/// Memory after pushing a word at stack offset `sp`: high byte first,
/// low byte second, so the low byte ends on top of the stack.
pub open spec fn pushed_word(m: Seq<u8>, sp: u8, w: u16) -> Seq<u8> {
    pushed_mem(pushed_mem(m, sp, hi_byte(w)), sp_after_push(sp), lo_byte(w))
}

/// The byte a one-byte pull at stack offset `sp` returns.
pub open spec fn pulled_val(m: Seq<u8>, sp: u8) -> u8 {
    m[stack_addr(sp_after_pull(sp)) as int]
}

/// The word a two-byte pull at stack offset `sp` returns: low byte
/// first, then high byte.
pub open spec fn pulled_word(m: Seq<u8>, sp: u8) -> u16 {
    word_of(pulled_val(m, sp), pulled_val(m, sp_after_pull(sp)))
}

/// Pushes one byte: writes it at 0x0100 + stack pointer, then
/// decrements the stack pointer with 8-bit wrap.
pub fn push_to_stack(b: u8, cpu: &mut Cpu, mem: &mut Memory)
    requires
        old(mem).wf(),
    ensures
        final(mem).wf(),
        final(mem)@ == pushed_mem(old(mem)@, old(cpu).sp, b),
        *final(cpu) == (Cpu { sp: sp_after_push(old(cpu).sp), ..*old(cpu) }),
{
    let memloc: u16 = 0x0100 + cpu.sp as u16;
    mem.write(memloc, b);
    cpu.sp = if cpu.sp == 0 {
        0xff
    } else {
        cpu.sp - 1
    };
}

/// Pulls one byte: increments the stack pointer with 8-bit wrap, then
/// reads from 0x0100 + stack pointer.
pub fn pull_from_stack(cpu: &mut Cpu, mem: &Memory) -> (b: u8)
    requires
        mem.wf(),
    ensures
        b == pulled_val(mem@, old(cpu).sp),
        *final(cpu) == (Cpu { sp: sp_after_pull(old(cpu).sp), ..*old(cpu) }),
{
    cpu.sp = if cpu.sp == 0xff {
        0x00
    } else {
        cpu.sp + 1
    };
    let memloc: u16 = 0x0100 + cpu.sp as u16;
    mem.read(memloc)
}

/// Pushes a word: high byte first, then low byte, decrementing the
/// stack pointer twice.
pub fn push_word_to_stack(w: u16, cpu: &mut Cpu, mem: &mut Memory)
    requires
        old(mem).wf(),
    ensures
        final(mem).wf(),
        final(mem)@ == pushed_word(old(mem)@, old(cpu).sp, w),
        *final(cpu) == (Cpu { sp: wrap8(old(cpu).sp - 2), ..*old(cpu) }),
{
    push_to_stack((w / 0x100) as u8, cpu, mem);
    push_to_stack((w % 0x100) as u8, cpu, mem);
}

/// Pulls a word: low byte first, then high byte, incrementing the
/// stack pointer twice.
pub fn pull_word_from_stack(cpu: &mut Cpu, mem: &Memory) -> (w: u16)
    requires
        mem.wf(),
    ensures
        w == pulled_word(mem@, old(cpu).sp),
        *final(cpu) == (Cpu { sp: wrap8(old(cpu).sp + 2), ..*old(cpu) }),
{
    let lo = pull_from_stack(cpu, mem);
    let hi = pull_from_stack(cpu, mem);
    byte_to_word(lo, hi)
}

/// Hardware reset: stack pointer to 0xFF, program counter loaded from
/// the reset vector, the Unused flag forced set.  All other registers
/// and flags keep their values.
pub fn reset_cpu(cpu: &mut Cpu, mem: &Memory)
    requires
        mem.wf(),
    ensures
        *final(cpu) == (Cpu {
            sp: 0xff,
            pc: mem_word(mem@, RESET_VECTOR_LOBYTE),
            st: (Flags { u: true, ..old(cpu).st }),
            ..*old(cpu)
        }),
{
    cpu.sp = 0xff;
    cpu.pc = mem.read_word(RESET_VECTOR_LOBYTE);
    cpu.st.u = true;
}

} // verus!
