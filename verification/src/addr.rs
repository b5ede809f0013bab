//! Addressing-mode resolution: effective address, operand length, and
//! page-boundary-cross detection.

use vstd::prelude::*;

use crate::cpu::Cpu;
use crate::mem::{byte_to_word, mem_word, word_of, wrap16, wrap8, Memory};

verus! {

/// The thirteen addressing modes.
#[derive(Clone, Copy, PartialEq, Eq, Structural, Debug)]
pub enum Mode {
    /// Implied: the operand is implicit in the instruction.
    Imp,
    /// Accumulator: the operand is the accumulator itself.
    Acc,
    /// Immediate: the operand is the byte after the opcode.
    Imm,
    /// Zero page: a one-byte address into page 0.
    Zpg,
    /// Zero page indexed by X, wrapping within page 0.
    Zpx,
    /// Zero page indexed by Y, wrapping within page 0.
    Zpy,
    /// Absolute: a full two-byte address.
    Abs,
    /// Absolute indexed by X, with a page-cross cycle penalty.
    Abx,
    /// Absolute indexed by Y, with a page-cross cycle penalty.
    Aby,
    /// Indirect: a two-byte pointer, used only by the jump instruction,
    /// with the documented page-boundary hardware bug.
    Ind,
    /// Indexed indirect: zero-page pointer pre-indexed by X.
    Izx,
    /// Indirect indexed: zero-page pointer, then post-indexed by Y.
    Izy,
    /// Relative: a signed one-byte offset, used only by branches.
    Rel,
}

/// Number of operand bytes the mode consumes after the opcode byte.
pub open spec fn operand_len(mode: Mode) -> u16 {
    match mode {
        Mode::Imp => 0,
        Mode::Acc => 0,
        Mode::Imm => 1,
        Mode::Zpg => 1,
        Mode::Zpx => 1,
        Mode::Zpy => 1,
        Mode::Abs => 2,
        Mode::Abx => 2,
        Mode::Aby => 2,
        Mode::Ind => 2,
        Mode::Izx => 1,
        Mode::Izy => 1,
        Mode::Rel => 1,
    }
}

/// The program counter after the opcode and its operand bytes.
pub open spec fn pc_after(c: Cpu, mode: Mode) -> u16 {
    wrap16(c.pc + 1 + operand_len(mode))
}

/// The page (high byte) of an address.
pub open spec fn page_of(a: u16) -> u16 {
    a / 0x100
}

/// The word read from page 0 at offset `p`, the second byte wrapping
/// within page 0.
pub open spec fn zp_word(m: Seq<u8>, p: u8) -> u16 {
    word_of(m[p as int], m[wrap8(p + 1) as int])
}

/// Where the high byte of an indirect jump target is fetched from: one
/// past the pointer, except that a pointer ending in 0xFF wraps to the
/// start of its own page — the documented hardware bug.
pub open spec fn ind_hi_addr(ptr: u16) -> u16 {
    if ptr % 0x100 == 0xff {
        (ptr - 0xff) as u16
    } else {
        (ptr + 1) as u16
    }
}

/// The target of an indirect jump through `ptr`.
pub open spec fn ind_target(m: Seq<u8>, ptr: u16) -> u16 {
    word_of(m[ptr as int], m[ind_hi_addr(ptr) as int])
}

/// The absolute base address for the absolute and indirect modes: the
/// word after the opcode.
pub open spec fn abs_base(c: Cpu, m: Seq<u8>) -> u16 {
    mem_word(m, wrap16(c.pc + 1))
}

/// The first operand byte: the byte after the opcode.
pub open spec fn operand1(c: Cpu, m: Seq<u8>) -> u8 {
    m[wrap16(c.pc + 1) as int]
}

/// The effective operand address of a mode.  Meaningful for every mode
/// that reads or writes through an address; for the immediate and
/// relative modes it is the operand byte's own address, and for the
/// implied and accumulator modes (which have no address) it is zero.
pub open spec fn ea(mode: Mode, c: Cpu, m: Seq<u8>) -> u16 {
    match mode {
        Mode::Imp => 0,
        Mode::Acc => 0,
        Mode::Imm => wrap16(c.pc + 1),
        Mode::Rel => wrap16(c.pc + 1),
        Mode::Zpg => operand1(c, m) as u16,
        Mode::Zpx => wrap8(operand1(c, m) + c.xr) as u16,
        Mode::Zpy => wrap8(operand1(c, m) + c.yr) as u16,
        Mode::Abs => abs_base(c, m),
        Mode::Abx => wrap16(abs_base(c, m) + c.xr),
        Mode::Aby => wrap16(abs_base(c, m) + c.yr),
        Mode::Ind => ind_target(m, abs_base(c, m)),
        Mode::Izx => zp_word(m, wrap8(operand1(c, m) + c.xr)),
        Mode::Izy => wrap16(zp_word(m, operand1(c, m)) + c.yr),
    }
}

/// Whether the indexed address computation crossed a page boundary,
/// which costs the penalized instructions one extra cycle.
pub open spec fn crossed(mode: Mode, c: Cpu, m: Seq<u8>) -> bool {
    match mode {
        Mode::Abx => page_of(ea(mode, c, m)) != page_of(abs_base(c, m)),
        Mode::Aby => page_of(ea(mode, c, m)) != page_of(abs_base(c, m)),
        Mode::Izy => page_of(ea(mode, c, m)) != page_of(zp_word(m, operand1(c, m))),
        _ => false,
    }
}

/// The operand value a mode yields: the accumulator for accumulator
/// mode, else the byte at the effective address.
pub open spec fn operand_val(mode: Mode, c: Cpu, m: Seq<u8>) -> u8 {
    if mode == Mode::Acc {
        c.ac
    } else {
        m[ea(mode, c, m) as int]
    }
}

/// The target of a relative branch: the signed offset added to the
/// program counter after it has advanced past the branch instruction.
pub open spec fn branch_target(pc_next: u16, offset: u8) -> u16 {
    if offset < 0x80 {
        wrap16(pc_next + offset)
    } else {
        wrap16(pc_next + offset - 0x100)
    }
}

/// Resolves a mode's effective address and page-cross penalty from the
/// registers and the operand bytes after the opcode at the program
/// counter.
pub fn resolve_ea(mode: Mode, cpu: &Cpu, mem: &Memory) -> (r: (u16, bool))
    requires
        mem.wf(),
    ensures
        r.0 == ea(mode, *cpu, mem@),
        r.1 == crossed(mode, *cpu, mem@),
{
    let op_addr: u16 = ((cpu.pc as u32 + 1) % 0x10000) as u16;
    match mode {
        Mode::Imp => (0, false),
        Mode::Acc => (0, false),
        Mode::Imm => (op_addr, false),
        Mode::Rel => (op_addr, false),
        Mode::Zpg => (mem.read(op_addr) as u16, false),
        Mode::Zpx => {
            let o1 = mem.read(op_addr);
            ((((o1 as u16) + (cpu.xr as u16)) % 0x100), false)
        },
        Mode::Zpy => {
            let o1 = mem.read(op_addr);
            ((((o1 as u16) + (cpu.yr as u16)) % 0x100), false)
        },
        Mode::Abs => (mem.read_word(op_addr), false),
        Mode::Abx => {
            let base = mem.read_word(op_addr);
            let a: u16 = (((base as u32) + (cpu.xr as u32)) % 0x10000) as u16;
            (a, a / 0x100 != base / 0x100)
        },
        Mode::Aby => {
            let base = mem.read_word(op_addr);
            let a: u16 = (((base as u32) + (cpu.yr as u32)) % 0x10000) as u16;
            (a, a / 0x100 != base / 0x100)
        },
        Mode::Ind => {
            let ptr = mem.read_word(op_addr);
            let hi_addr: u16 = if ptr % 0x100 == 0xff {
                ptr - 0xff
            } else {
                ptr + 1
            };
            (byte_to_word(mem.read(ptr), mem.read(hi_addr)), false)
        },
        Mode::Izx => {
            let o1 = mem.read(op_addr);
            let p: u8 = (((o1 as u16) + (cpu.xr as u16)) % 0x100) as u8;
            let lo = mem.read(p as u16);
            let hi = mem.read(((p as u16 + 1) % 0x100) as u16);
            (byte_to_word(lo, hi), false)
        },
        Mode::Izy => {
            let o1 = mem.read(op_addr);
            let lo = mem.read(o1 as u16);
            let hi = mem.read(((o1 as u16 + 1) % 0x100) as u16);
            let base = byte_to_word(lo, hi);
            let a: u16 = (((base as u32) + (cpu.yr as u32)) % 0x10000) as u16;
            (a, a / 0x100 != base / 0x100)
        },
    }
}

/// Fetches the operand value and page-cross penalty for a mode: the
/// accumulator for accumulator mode, else the byte at the effective
/// address.
pub fn fetch_operand(mode: Mode, cpu: &Cpu, mem: &Memory) -> (r: (u8, bool))
    requires
        mem.wf(),
    ensures
        r.0 == operand_val(mode, *cpu, mem@),
        r.1 == crossed(mode, *cpu, mem@),
{
    match mode {
        Mode::Acc => (cpu.ac, false),
        _ => {
            let (a, crossed) = resolve_ea(mode, cpu, mem);
            (mem.read(a), crossed)
        },
    }
}

} // verus!
