//! The 256-entry opcode table: every opcode byte maps to one explicit,
//! intentional record of {semantic operation, addressing mode, base cycle
//! count, page-cross penalty}.
//!
//! Bytes the architecture leaves officially undefined all carry the one
//! documented policy of this core: they decode to a classified
//! illegal-opcode record, which the engine reports to the caller without
//! touching machine state — never a silent fallback.

use vstd::prelude::*;

use crate::addr::Mode;

verus! {

/// An 8-bit register selector.
#[derive(Clone, Copy, PartialEq, Eq, Structural, Debug)]
pub enum Reg {
    /// The accumulator.
    A,
    /// The X index register.
    X,
    /// The Y index register.
    Y,
}

/// A selectable status flag: the four branch conditions plus the two
/// flags that only set/clear instructions touch.
#[derive(Clone, Copy, PartialEq, Eq, Structural, Debug)]
pub enum Flg {
    /// Carry.
    C,
    /// Zero.
    Z,
    /// Overflow.
    V,
    /// Negative.
    N,
    /// Interrupt disable.
    I,
    /// Decimal mode.
    D,
}

/// The semantic operation of an instruction.
#[derive(Clone, Copy, PartialEq, Eq, Structural, Debug)]
pub enum Op {
    /// Load a register from the operand; sets Zero and Negative.
    Load(Reg),
    /// Store a register to the operand address; no flag effects.
    Store(Reg),
    /// Transfer accumulator to X; sets Zero and Negative.
    Tax,
    /// Transfer accumulator to Y; sets Zero and Negative.
    Tay,
    /// Transfer X to accumulator; sets Zero and Negative.
    Txa,
    /// Transfer Y to accumulator; sets Zero and Negative.
    Tya,
    /// Transfer stack pointer to X; sets Zero and Negative.
    Tsx,
    /// Transfer X to stack pointer; no flag effects.
    Txs,
    /// Bitwise AND into the accumulator; sets Zero and Negative.
    And,
    /// Bitwise OR into the accumulator; sets Zero and Negative.
    Ora,
    /// Bitwise exclusive OR into the accumulator; sets Zero and Negative.
    Eor,
    /// Bit test: Zero from accumulator AND operand, Negative and
    /// Overflow copied from operand bits 7 and 6.
    Bit,
    /// Add with carry; sets Negative, Overflow, Zero, Carry.
    Adc,
    /// Subtract with carry (borrow); sets Negative, Overflow, Zero, Carry.
    Sbc,
    /// Compare a register with the operand; sets Negative, Zero, Carry.
    Cmp(Reg),
    /// Increment the operand byte in memory; sets Zero and Negative.
    IncMem,
    /// Decrement the operand byte in memory; sets Zero and Negative.
    DecMem,
    /// Increment X; sets Zero and Negative.
    Inx,
    /// Increment Y; sets Zero and Negative.
    Iny,
    /// Decrement X; sets Zero and Negative.
    Dex,
    /// Decrement Y; sets Zero and Negative.
    Dey,
    /// Arithmetic shift left; sets Negative, Zero, Carry.
    Asl,
    /// Logical shift right; sets Negative, Zero, Carry.
    Lsr,
    /// Rotate left through Carry; sets Negative, Zero, Carry.
    Rol,
    /// Rotate right through Carry; sets Negative, Zero, Carry.
    Ror,
    /// Jump: load the program counter from the effective address.
    Jmp,
    /// Jump to subroutine: push the return address minus one, high byte
    /// first, then jump.
    Jsr,
    /// Return from subroutine: pull the word and add one.
    Rts,
    /// Return from interrupt: pull status, then the program counter.
    Rti,
    /// Force break: the interrupt microsequence through the break vector.
    Brk,
    /// Branch when the named flag has the given value.
    Bra(Flg, bool),
    /// Set (true) or clear (false) the named flag; no other effects.
    SetF(Flg, bool),
    /// Push the accumulator.
    Pha,
    /// Push the status byte with Break and Unused forced set.
    Php,
    /// Pull the accumulator; sets Zero and Negative.
    Pla,
    /// Pull the status byte into the flags, exactly as stored.
    Plp,
    /// No operation: advances the program counter by one byte.
    Nop,
    /// An officially undefined opcode: classified and reported, state
    /// untouched.
    Ill,
}

/// One opcode-table record.
#[derive(Clone, Copy, PartialEq, Eq, Structural, Debug)]
pub struct Instr {
    /// The semantic operation.
    pub op: Op,
    /// The addressing mode.
    pub mode: Mode,
    /// Base cycle count.
    pub cycles: u8,
    /// Whether an indexed page cross adds one cycle.
    pub penalty: bool,
}

/// Builds one table record.
pub open spec fn ins(op: Op, mode: Mode, cycles: u8, penalty: bool) -> Instr {
    Instr { op, mode, cycles, penalty }
}

/// The opcode table as a mathematical function: the record for each of
/// the 256 opcode bytes.  Every officially defined opcode carries its
/// documented mode and base cycle count; every other byte carries the
/// explicit illegal-opcode record.  Opaque, so that reasoning about the
/// engine stays by opcode record rather than by byte value; reveal it
/// to evaluate a concrete opcode.
#[verifier::opaque]
pub open spec fn instr(code: u8) -> Instr {
    match code {
        0x00 => ins(Op::Brk, Mode::Imp, 7, false),
        0x01 => ins(Op::Ora, Mode::Izx, 6, false),
        0x05 => ins(Op::Ora, Mode::Zpg, 3, false),
        0x06 => ins(Op::Asl, Mode::Zpg, 5, false),
        0x08 => ins(Op::Php, Mode::Imp, 3, false),
        0x09 => ins(Op::Ora, Mode::Imm, 2, false),
        0x0a => ins(Op::Asl, Mode::Acc, 2, false),
        0x0d => ins(Op::Ora, Mode::Abs, 4, false),
        0x0e => ins(Op::Asl, Mode::Abs, 6, false),
        0x10 => ins(Op::Bra(Flg::N, false), Mode::Rel, 2, false),
        0x11 => ins(Op::Ora, Mode::Izy, 5, true),
        0x15 => ins(Op::Ora, Mode::Zpx, 4, false),
        0x16 => ins(Op::Asl, Mode::Zpx, 6, false),
        0x18 => ins(Op::SetF(Flg::C, false), Mode::Imp, 2, false),
        0x19 => ins(Op::Ora, Mode::Aby, 4, true),
        0x1d => ins(Op::Ora, Mode::Abx, 4, true),
        0x1e => ins(Op::Asl, Mode::Abx, 7, false),
        0x20 => ins(Op::Jsr, Mode::Abs, 6, false),
        0x21 => ins(Op::And, Mode::Izx, 6, false),
        0x24 => ins(Op::Bit, Mode::Zpg, 3, false),
        0x25 => ins(Op::And, Mode::Zpg, 3, false),
        0x26 => ins(Op::Rol, Mode::Zpg, 5, false),
        0x28 => ins(Op::Plp, Mode::Imp, 4, false),
        0x29 => ins(Op::And, Mode::Imm, 2, false),
        0x2a => ins(Op::Rol, Mode::Acc, 2, false),
        0x2c => ins(Op::Bit, Mode::Abs, 4, false),
        0x2d => ins(Op::And, Mode::Abs, 4, false),
        0x2e => ins(Op::Rol, Mode::Abs, 6, false),
        0x30 => ins(Op::Bra(Flg::N, true), Mode::Rel, 2, false),
        0x31 => ins(Op::And, Mode::Izy, 5, true),
        0x35 => ins(Op::And, Mode::Zpx, 4, false),
        0x36 => ins(Op::Rol, Mode::Zpx, 6, false),
        0x38 => ins(Op::SetF(Flg::C, true), Mode::Imp, 2, false),
        0x39 => ins(Op::And, Mode::Aby, 4, true),
        0x3d => ins(Op::And, Mode::Abx, 4, true),
        0x3e => ins(Op::Rol, Mode::Abx, 7, false),
        0x40 => ins(Op::Rti, Mode::Imp, 6, false),
        0x41 => ins(Op::Eor, Mode::Izx, 6, false),
        0x45 => ins(Op::Eor, Mode::Zpg, 3, false),
        0x46 => ins(Op::Lsr, Mode::Zpg, 5, false),
        0x48 => ins(Op::Pha, Mode::Imp, 3, false),
        0x49 => ins(Op::Eor, Mode::Imm, 2, false),
        0x4a => ins(Op::Lsr, Mode::Acc, 2, false),
        0x4c => ins(Op::Jmp, Mode::Abs, 3, false),
        0x4d => ins(Op::Eor, Mode::Abs, 4, false),
        0x4e => ins(Op::Lsr, Mode::Abs, 6, false),
        0x50 => ins(Op::Bra(Flg::V, false), Mode::Rel, 2, false),
        0x51 => ins(Op::Eor, Mode::Izy, 5, true),
        0x55 => ins(Op::Eor, Mode::Zpx, 4, false),
        0x56 => ins(Op::Lsr, Mode::Zpx, 6, false),
        0x58 => ins(Op::SetF(Flg::I, false), Mode::Imp, 2, false),
        0x59 => ins(Op::Eor, Mode::Aby, 4, true),
        0x5d => ins(Op::Eor, Mode::Abx, 4, true),
        0x5e => ins(Op::Lsr, Mode::Abx, 7, false),
        0x60 => ins(Op::Rts, Mode::Imp, 6, false),
        0x61 => ins(Op::Adc, Mode::Izx, 6, false),
        0x65 => ins(Op::Adc, Mode::Zpg, 3, false),
        0x66 => ins(Op::Ror, Mode::Zpg, 5, false),
        0x68 => ins(Op::Pla, Mode::Imp, 4, false),
        0x69 => ins(Op::Adc, Mode::Imm, 2, false),
        0x6a => ins(Op::Ror, Mode::Acc, 2, false),
        0x6c => ins(Op::Jmp, Mode::Ind, 5, false),
        0x6d => ins(Op::Adc, Mode::Abs, 4, false),
        0x6e => ins(Op::Ror, Mode::Abs, 6, false),
        0x70 => ins(Op::Bra(Flg::V, true), Mode::Rel, 2, false),
        0x71 => ins(Op::Adc, Mode::Izy, 5, true),
        0x75 => ins(Op::Adc, Mode::Zpx, 4, false),
        0x76 => ins(Op::Ror, Mode::Zpx, 6, false),
        0x78 => ins(Op::SetF(Flg::I, true), Mode::Imp, 2, false),
        0x79 => ins(Op::Adc, Mode::Aby, 4, true),
        0x7d => ins(Op::Adc, Mode::Abx, 4, true),
        0x7e => ins(Op::Ror, Mode::Abx, 7, false),
        0x81 => ins(Op::Store(Reg::A), Mode::Izx, 6, false),
        0x84 => ins(Op::Store(Reg::Y), Mode::Zpg, 3, false),
        0x85 => ins(Op::Store(Reg::A), Mode::Zpg, 3, false),
        0x86 => ins(Op::Store(Reg::X), Mode::Zpg, 3, false),
        0x88 => ins(Op::Dey, Mode::Imp, 2, false),
        0x8a => ins(Op::Txa, Mode::Imp, 2, false),
        0x8c => ins(Op::Store(Reg::Y), Mode::Abs, 4, false),
        0x8d => ins(Op::Store(Reg::A), Mode::Abs, 4, false),
        0x8e => ins(Op::Store(Reg::X), Mode::Abs, 4, false),
        0x90 => ins(Op::Bra(Flg::C, false), Mode::Rel, 2, false),
        0x91 => ins(Op::Store(Reg::A), Mode::Izy, 6, false),
        0x94 => ins(Op::Store(Reg::Y), Mode::Zpx, 4, false),
        0x95 => ins(Op::Store(Reg::A), Mode::Zpx, 4, false),
        0x96 => ins(Op::Store(Reg::X), Mode::Zpy, 4, false),
        0x98 => ins(Op::Tya, Mode::Imp, 2, false),
        0x99 => ins(Op::Store(Reg::A), Mode::Aby, 5, false),
        0x9a => ins(Op::Txs, Mode::Imp, 2, false),
        0x9d => ins(Op::Store(Reg::A), Mode::Abx, 5, false),
        0xa0 => ins(Op::Load(Reg::Y), Mode::Imm, 2, false),
        0xa1 => ins(Op::Load(Reg::A), Mode::Izx, 6, false),
        0xa2 => ins(Op::Load(Reg::X), Mode::Imm, 2, false),
        0xa4 => ins(Op::Load(Reg::Y), Mode::Zpg, 3, false),
        0xa5 => ins(Op::Load(Reg::A), Mode::Zpg, 3, false),
        0xa6 => ins(Op::Load(Reg::X), Mode::Zpg, 3, false),
        0xa8 => ins(Op::Tay, Mode::Imp, 2, false),
        0xa9 => ins(Op::Load(Reg::A), Mode::Imm, 2, false),
        0xaa => ins(Op::Tax, Mode::Imp, 2, false),
        0xac => ins(Op::Load(Reg::Y), Mode::Abs, 4, false),
        0xad => ins(Op::Load(Reg::A), Mode::Abs, 4, false),
        0xae => ins(Op::Load(Reg::X), Mode::Abs, 4, false),
        0xb0 => ins(Op::Bra(Flg::C, true), Mode::Rel, 2, false),
        0xb1 => ins(Op::Load(Reg::A), Mode::Izy, 5, true),
        0xb4 => ins(Op::Load(Reg::Y), Mode::Zpx, 4, false),
        0xb5 => ins(Op::Load(Reg::A), Mode::Zpx, 4, false),
        0xb6 => ins(Op::Load(Reg::X), Mode::Zpy, 4, false),
        0xb8 => ins(Op::SetF(Flg::V, false), Mode::Imp, 2, false),
        0xb9 => ins(Op::Load(Reg::A), Mode::Aby, 4, true),
        0xba => ins(Op::Tsx, Mode::Imp, 2, false),
        0xbc => ins(Op::Load(Reg::Y), Mode::Abx, 4, true),
        0xbd => ins(Op::Load(Reg::A), Mode::Abx, 4, true),
        0xbe => ins(Op::Load(Reg::X), Mode::Aby, 4, true),
        0xc0 => ins(Op::Cmp(Reg::Y), Mode::Imm, 2, false),
        0xc1 => ins(Op::Cmp(Reg::A), Mode::Izx, 6, false),
        0xc4 => ins(Op::Cmp(Reg::Y), Mode::Zpg, 3, false),
        0xc5 => ins(Op::Cmp(Reg::A), Mode::Zpg, 3, false),
        0xc6 => ins(Op::DecMem, Mode::Zpg, 5, false),
        0xc8 => ins(Op::Iny, Mode::Imp, 2, false),
        0xc9 => ins(Op::Cmp(Reg::A), Mode::Imm, 2, false),
        0xca => ins(Op::Dex, Mode::Imp, 2, false),
        0xcc => ins(Op::Cmp(Reg::Y), Mode::Abs, 4, false),
        0xcd => ins(Op::Cmp(Reg::A), Mode::Abs, 4, false),
        0xce => ins(Op::DecMem, Mode::Abs, 6, false),
        0xd0 => ins(Op::Bra(Flg::Z, false), Mode::Rel, 2, false),
        0xd1 => ins(Op::Cmp(Reg::A), Mode::Izy, 5, true),
        0xd5 => ins(Op::Cmp(Reg::A), Mode::Zpx, 4, false),
        0xd6 => ins(Op::DecMem, Mode::Zpx, 6, false),
        0xd8 => ins(Op::SetF(Flg::D, false), Mode::Imp, 2, false),
        0xd9 => ins(Op::Cmp(Reg::A), Mode::Aby, 4, true),
        0xdd => ins(Op::Cmp(Reg::A), Mode::Abx, 4, true),
        0xde => ins(Op::DecMem, Mode::Abx, 7, false),
        0xe0 => ins(Op::Cmp(Reg::X), Mode::Imm, 2, false),
        0xe1 => ins(Op::Sbc, Mode::Izx, 6, false),
        0xe4 => ins(Op::Cmp(Reg::X), Mode::Zpg, 3, false),
        0xe5 => ins(Op::Sbc, Mode::Zpg, 3, false),
        0xe6 => ins(Op::IncMem, Mode::Zpg, 5, false),
        0xe8 => ins(Op::Inx, Mode::Imp, 2, false),
        0xe9 => ins(Op::Sbc, Mode::Imm, 2, false),
        0xea => ins(Op::Nop, Mode::Imp, 2, false),
        0xec => ins(Op::Cmp(Reg::X), Mode::Abs, 4, false),
        0xed => ins(Op::Sbc, Mode::Abs, 4, false),
        0xee => ins(Op::IncMem, Mode::Abs, 6, false),
        0xf0 => ins(Op::Bra(Flg::Z, true), Mode::Rel, 2, false),
        0xf1 => ins(Op::Sbc, Mode::Izy, 5, true),
        0xf5 => ins(Op::Sbc, Mode::Zpx, 4, false),
        0xf6 => ins(Op::IncMem, Mode::Zpx, 6, false),
        0xf8 => ins(Op::SetF(Flg::D, true), Mode::Imp, 2, false),
        0xf9 => ins(Op::Sbc, Mode::Aby, 4, true),
        0xfd => ins(Op::Sbc, Mode::Abx, 4, true),
        0xfe => ins(Op::IncMem, Mode::Abx, 7, false),
        _ => ins(Op::Ill, Mode::Imp, 0, false),
    }
}

/// Builds one table record.
fn mk(op: Op, mode: Mode, cycles: u8, penalty: bool) -> (r: Instr)
    ensures
        r == ins(op, mode, cycles, penalty),
{
    Instr { op, mode, cycles, penalty }
}

/// Looks an opcode byte up in the table: a single indexed decision, one
/// explicit record per byte value.
pub fn decode(code: u8) -> (r: Instr)
    ensures
        r == instr(code),
{
    proof {
        reveal(crate::opcode::instr);
    }
    match code {
        0x00 => mk(Op::Brk, Mode::Imp, 7, false),
        0x01 => mk(Op::Ora, Mode::Izx, 6, false),
        0x05 => mk(Op::Ora, Mode::Zpg, 3, false),
        0x06 => mk(Op::Asl, Mode::Zpg, 5, false),
        0x08 => mk(Op::Php, Mode::Imp, 3, false),
        0x09 => mk(Op::Ora, Mode::Imm, 2, false),
        0x0a => mk(Op::Asl, Mode::Acc, 2, false),
        0x0d => mk(Op::Ora, Mode::Abs, 4, false),
        0x0e => mk(Op::Asl, Mode::Abs, 6, false),
        0x10 => mk(Op::Bra(Flg::N, false), Mode::Rel, 2, false),
        0x11 => mk(Op::Ora, Mode::Izy, 5, true),
        0x15 => mk(Op::Ora, Mode::Zpx, 4, false),
        0x16 => mk(Op::Asl, Mode::Zpx, 6, false),
        0x18 => mk(Op::SetF(Flg::C, false), Mode::Imp, 2, false),
        0x19 => mk(Op::Ora, Mode::Aby, 4, true),
        0x1d => mk(Op::Ora, Mode::Abx, 4, true),
        0x1e => mk(Op::Asl, Mode::Abx, 7, false),
        0x20 => mk(Op::Jsr, Mode::Abs, 6, false),
        0x21 => mk(Op::And, Mode::Izx, 6, false),
        0x24 => mk(Op::Bit, Mode::Zpg, 3, false),
        0x25 => mk(Op::And, Mode::Zpg, 3, false),
        0x26 => mk(Op::Rol, Mode::Zpg, 5, false),
        0x28 => mk(Op::Plp, Mode::Imp, 4, false),
        0x29 => mk(Op::And, Mode::Imm, 2, false),
        0x2a => mk(Op::Rol, Mode::Acc, 2, false),
        0x2c => mk(Op::Bit, Mode::Abs, 4, false),
        0x2d => mk(Op::And, Mode::Abs, 4, false),
        0x2e => mk(Op::Rol, Mode::Abs, 6, false),
        0x30 => mk(Op::Bra(Flg::N, true), Mode::Rel, 2, false),
        0x31 => mk(Op::And, Mode::Izy, 5, true),
        0x35 => mk(Op::And, Mode::Zpx, 4, false),
        0x36 => mk(Op::Rol, Mode::Zpx, 6, false),
        0x38 => mk(Op::SetF(Flg::C, true), Mode::Imp, 2, false),
        0x39 => mk(Op::And, Mode::Aby, 4, true),
        0x3d => mk(Op::And, Mode::Abx, 4, true),
        0x3e => mk(Op::Rol, Mode::Abx, 7, false),
        0x40 => mk(Op::Rti, Mode::Imp, 6, false),
        0x41 => mk(Op::Eor, Mode::Izx, 6, false),
        0x45 => mk(Op::Eor, Mode::Zpg, 3, false),
        0x46 => mk(Op::Lsr, Mode::Zpg, 5, false),
        0x48 => mk(Op::Pha, Mode::Imp, 3, false),
        0x49 => mk(Op::Eor, Mode::Imm, 2, false),
        0x4a => mk(Op::Lsr, Mode::Acc, 2, false),
        0x4c => mk(Op::Jmp, Mode::Abs, 3, false),
        0x4d => mk(Op::Eor, Mode::Abs, 4, false),
        0x4e => mk(Op::Lsr, Mode::Abs, 6, false),
        0x50 => mk(Op::Bra(Flg::V, false), Mode::Rel, 2, false),
        0x51 => mk(Op::Eor, Mode::Izy, 5, true),
        0x55 => mk(Op::Eor, Mode::Zpx, 4, false),
        0x56 => mk(Op::Lsr, Mode::Zpx, 6, false),
        0x58 => mk(Op::SetF(Flg::I, false), Mode::Imp, 2, false),
        0x59 => mk(Op::Eor, Mode::Aby, 4, true),
        0x5d => mk(Op::Eor, Mode::Abx, 4, true),
        0x5e => mk(Op::Lsr, Mode::Abx, 7, false),
        0x60 => mk(Op::Rts, Mode::Imp, 6, false),
        0x61 => mk(Op::Adc, Mode::Izx, 6, false),
        0x65 => mk(Op::Adc, Mode::Zpg, 3, false),
        0x66 => mk(Op::Ror, Mode::Zpg, 5, false),
        0x68 => mk(Op::Pla, Mode::Imp, 4, false),
        0x69 => mk(Op::Adc, Mode::Imm, 2, false),
        0x6a => mk(Op::Ror, Mode::Acc, 2, false),
        0x6c => mk(Op::Jmp, Mode::Ind, 5, false),
        0x6d => mk(Op::Adc, Mode::Abs, 4, false),
        0x6e => mk(Op::Ror, Mode::Abs, 6, false),
        0x70 => mk(Op::Bra(Flg::V, true), Mode::Rel, 2, false),
        0x71 => mk(Op::Adc, Mode::Izy, 5, true),
        0x75 => mk(Op::Adc, Mode::Zpx, 4, false),
        0x76 => mk(Op::Ror, Mode::Zpx, 6, false),
        0x78 => mk(Op::SetF(Flg::I, true), Mode::Imp, 2, false),
        0x79 => mk(Op::Adc, Mode::Aby, 4, true),
        0x7d => mk(Op::Adc, Mode::Abx, 4, true),
        0x7e => mk(Op::Ror, Mode::Abx, 7, false),
        0x81 => mk(Op::Store(Reg::A), Mode::Izx, 6, false),
        0x84 => mk(Op::Store(Reg::Y), Mode::Zpg, 3, false),
        0x85 => mk(Op::Store(Reg::A), Mode::Zpg, 3, false),
        0x86 => mk(Op::Store(Reg::X), Mode::Zpg, 3, false),
        0x88 => mk(Op::Dey, Mode::Imp, 2, false),
        0x8a => mk(Op::Txa, Mode::Imp, 2, false),
        0x8c => mk(Op::Store(Reg::Y), Mode::Abs, 4, false),
        0x8d => mk(Op::Store(Reg::A), Mode::Abs, 4, false),
        0x8e => mk(Op::Store(Reg::X), Mode::Abs, 4, false),
        0x90 => mk(Op::Bra(Flg::C, false), Mode::Rel, 2, false),
        0x91 => mk(Op::Store(Reg::A), Mode::Izy, 6, false),
        0x94 => mk(Op::Store(Reg::Y), Mode::Zpx, 4, false),
        0x95 => mk(Op::Store(Reg::A), Mode::Zpx, 4, false),
        0x96 => mk(Op::Store(Reg::X), Mode::Zpy, 4, false),
        0x98 => mk(Op::Tya, Mode::Imp, 2, false),
        0x99 => mk(Op::Store(Reg::A), Mode::Aby, 5, false),
        0x9a => mk(Op::Txs, Mode::Imp, 2, false),
        0x9d => mk(Op::Store(Reg::A), Mode::Abx, 5, false),
        0xa0 => mk(Op::Load(Reg::Y), Mode::Imm, 2, false),
        0xa1 => mk(Op::Load(Reg::A), Mode::Izx, 6, false),
        0xa2 => mk(Op::Load(Reg::X), Mode::Imm, 2, false),
        0xa4 => mk(Op::Load(Reg::Y), Mode::Zpg, 3, false),
        0xa5 => mk(Op::Load(Reg::A), Mode::Zpg, 3, false),
        0xa6 => mk(Op::Load(Reg::X), Mode::Zpg, 3, false),
        0xa8 => mk(Op::Tay, Mode::Imp, 2, false),
        0xa9 => mk(Op::Load(Reg::A), Mode::Imm, 2, false),
        0xaa => mk(Op::Tax, Mode::Imp, 2, false),
        0xac => mk(Op::Load(Reg::Y), Mode::Abs, 4, false),
        0xad => mk(Op::Load(Reg::A), Mode::Abs, 4, false),
        0xae => mk(Op::Load(Reg::X), Mode::Abs, 4, false),
        0xb0 => mk(Op::Bra(Flg::C, true), Mode::Rel, 2, false),
        0xb1 => mk(Op::Load(Reg::A), Mode::Izy, 5, true),
        0xb4 => mk(Op::Load(Reg::Y), Mode::Zpx, 4, false),
        0xb5 => mk(Op::Load(Reg::A), Mode::Zpx, 4, false),
        0xb6 => mk(Op::Load(Reg::X), Mode::Zpy, 4, false),
        0xb8 => mk(Op::SetF(Flg::V, false), Mode::Imp, 2, false),
        0xb9 => mk(Op::Load(Reg::A), Mode::Aby, 4, true),
        0xba => mk(Op::Tsx, Mode::Imp, 2, false),
        0xbc => mk(Op::Load(Reg::Y), Mode::Abx, 4, true),
        0xbd => mk(Op::Load(Reg::A), Mode::Abx, 4, true),
        0xbe => mk(Op::Load(Reg::X), Mode::Aby, 4, true),
        0xc0 => mk(Op::Cmp(Reg::Y), Mode::Imm, 2, false),
        0xc1 => mk(Op::Cmp(Reg::A), Mode::Izx, 6, false),
        0xc4 => mk(Op::Cmp(Reg::Y), Mode::Zpg, 3, false),
        0xc5 => mk(Op::Cmp(Reg::A), Mode::Zpg, 3, false),
        0xc6 => mk(Op::DecMem, Mode::Zpg, 5, false),
        0xc8 => mk(Op::Iny, Mode::Imp, 2, false),
        0xc9 => mk(Op::Cmp(Reg::A), Mode::Imm, 2, false),
        0xca => mk(Op::Dex, Mode::Imp, 2, false),
        0xcc => mk(Op::Cmp(Reg::Y), Mode::Abs, 4, false),
        0xcd => mk(Op::Cmp(Reg::A), Mode::Abs, 4, false),
        0xce => mk(Op::DecMem, Mode::Abs, 6, false),
        0xd0 => mk(Op::Bra(Flg::Z, false), Mode::Rel, 2, false),
        0xd1 => mk(Op::Cmp(Reg::A), Mode::Izy, 5, true),
        0xd5 => mk(Op::Cmp(Reg::A), Mode::Zpx, 4, false),
        0xd6 => mk(Op::DecMem, Mode::Zpx, 6, false),
        0xd8 => mk(Op::SetF(Flg::D, false), Mode::Imp, 2, false),
        0xd9 => mk(Op::Cmp(Reg::A), Mode::Aby, 4, true),
        0xdd => mk(Op::Cmp(Reg::A), Mode::Abx, 4, true),
        0xde => mk(Op::DecMem, Mode::Abx, 7, false),
        0xe0 => mk(Op::Cmp(Reg::X), Mode::Imm, 2, false),
        0xe1 => mk(Op::Sbc, Mode::Izx, 6, false),
        0xe4 => mk(Op::Cmp(Reg::X), Mode::Zpg, 3, false),
        0xe5 => mk(Op::Sbc, Mode::Zpg, 3, false),
        0xe6 => mk(Op::IncMem, Mode::Zpg, 5, false),
        0xe8 => mk(Op::Inx, Mode::Imp, 2, false),
        0xe9 => mk(Op::Sbc, Mode::Imm, 2, false),
        0xea => mk(Op::Nop, Mode::Imp, 2, false),
        0xec => mk(Op::Cmp(Reg::X), Mode::Abs, 4, false),
        0xed => mk(Op::Sbc, Mode::Abs, 4, false),
        0xee => mk(Op::IncMem, Mode::Abs, 6, false),
        0xf0 => mk(Op::Bra(Flg::Z, true), Mode::Rel, 2, false),
        0xf1 => mk(Op::Sbc, Mode::Izy, 5, true),
        0xf5 => mk(Op::Sbc, Mode::Zpx, 4, false),
        0xf6 => mk(Op::IncMem, Mode::Zpx, 6, false),
        0xf8 => mk(Op::SetF(Flg::D, true), Mode::Imp, 2, false),
        0xf9 => mk(Op::Sbc, Mode::Aby, 4, true),
        0xfd => mk(Op::Sbc, Mode::Abx, 4, true),
        0xfe => mk(Op::IncMem, Mode::Abx, 7, false),
        _ => mk(Op::Ill, Mode::Imp, 0, false),
    }
}

/// The three-letter mnemonic of an operation, for tracing and
/// disassembly only; never consulted by execution.
pub open spec fn name_of(op: Op) -> Seq<char> {
    match op {
        Op::Load(Reg::A) => "LDA"@,
        Op::Load(Reg::X) => "LDX"@,
        Op::Load(Reg::Y) => "LDY"@,
        Op::Store(Reg::A) => "STA"@,
        Op::Store(Reg::X) => "STX"@,
        Op::Store(Reg::Y) => "STY"@,
        Op::Tax => "TAX"@,
        Op::Tay => "TAY"@,
        Op::Txa => "TXA"@,
        Op::Tya => "TYA"@,
        Op::Tsx => "TSX"@,
        Op::Txs => "TXS"@,
        Op::And => "AND"@,
        Op::Ora => "ORA"@,
        Op::Eor => "EOR"@,
        Op::Bit => "BIT"@,
        Op::Adc => "ADC"@,
        Op::Sbc => "SBC"@,
        Op::Cmp(Reg::A) => "CMP"@,
        Op::Cmp(Reg::X) => "CPX"@,
        Op::Cmp(Reg::Y) => "CPY"@,
        Op::IncMem => "INC"@,
        Op::DecMem => "DEC"@,
        Op::Inx => "INX"@,
        Op::Iny => "INY"@,
        Op::Dex => "DEX"@,
        Op::Dey => "DEY"@,
        Op::Asl => "ASL"@,
        Op::Lsr => "LSR"@,
        Op::Rol => "ROL"@,
        Op::Ror => "ROR"@,
        Op::Jmp => "JMP"@,
        Op::Jsr => "JSR"@,
        Op::Rts => "RTS"@,
        Op::Rti => "RTI"@,
        Op::Brk => "BRK"@,
        Op::Bra(Flg::N, false) => "BPL"@,
        Op::Bra(Flg::N, true) => "BMI"@,
        Op::Bra(Flg::V, false) => "BVC"@,
        Op::Bra(Flg::V, true) => "BVS"@,
        Op::Bra(Flg::C, false) => "BCC"@,
        Op::Bra(Flg::C, true) => "BCS"@,
        Op::Bra(Flg::Z, false) => "BNE"@,
        Op::Bra(Flg::Z, true) => "BEQ"@,
        Op::Bra(_, _) => "???"@,
        Op::SetF(Flg::C, false) => "CLC"@,
        Op::SetF(Flg::C, true) => "SEC"@,
        Op::SetF(Flg::I, false) => "CLI"@,
        Op::SetF(Flg::I, true) => "SEI"@,
        Op::SetF(Flg::D, false) => "CLD"@,
        Op::SetF(Flg::D, true) => "SED"@,
        Op::SetF(Flg::V, false) => "CLV"@,
        Op::SetF(_, _) => "???"@,
        Op::Pha => "PHA"@,
        Op::Php => "PHP"@,
        Op::Pla => "PLA"@,
        Op::Plp => "PLP"@,
        Op::Nop => "NOP"@,
        Op::Ill => "???"@,
    }
}

/// The mnemonic for an opcode byte, for tracing only.
pub fn mnemonic(code: u8) -> (r: &'static str)
    ensures
        r@ == name_of(instr(code).op),
{
    let i = decode(code);
    match i.op {
        Op::Load(Reg::A) => "LDA",
        Op::Load(Reg::X) => "LDX",
        Op::Load(Reg::Y) => "LDY",
        Op::Store(Reg::A) => "STA",
        Op::Store(Reg::X) => "STX",
        Op::Store(Reg::Y) => "STY",
        Op::Tax => "TAX",
        Op::Tay => "TAY",
        Op::Txa => "TXA",
        Op::Tya => "TYA",
        Op::Tsx => "TSX",
        Op::Txs => "TXS",
        Op::And => "AND",
        Op::Ora => "ORA",
        Op::Eor => "EOR",
        Op::Bit => "BIT",
        Op::Adc => "ADC",
        Op::Sbc => "SBC",
        Op::Cmp(Reg::A) => "CMP",
        Op::Cmp(Reg::X) => "CPX",
        Op::Cmp(Reg::Y) => "CPY",
        Op::IncMem => "INC",
        Op::DecMem => "DEC",
        Op::Inx => "INX",
        Op::Iny => "INY",
        Op::Dex => "DEX",
        Op::Dey => "DEY",
        Op::Asl => "ASL",
        Op::Lsr => "LSR",
        Op::Rol => "ROL",
        Op::Ror => "ROR",
        Op::Jmp => "JMP",
        Op::Jsr => "JSR",
        Op::Rts => "RTS",
        Op::Rti => "RTI",
        Op::Brk => "BRK",
        Op::Bra(Flg::N, false) => "BPL",
        Op::Bra(Flg::N, true) => "BMI",
        Op::Bra(Flg::V, false) => "BVC",
        Op::Bra(Flg::V, true) => "BVS",
        Op::Bra(Flg::C, false) => "BCC",
        Op::Bra(Flg::C, true) => "BCS",
        Op::Bra(Flg::Z, false) => "BNE",
        Op::Bra(Flg::Z, true) => "BEQ",
        Op::Bra(_, _) => "???",
        Op::SetF(Flg::C, false) => "CLC",
        Op::SetF(Flg::C, true) => "SEC",
        Op::SetF(Flg::I, false) => "CLI",
        Op::SetF(Flg::I, true) => "SEI",
        Op::SetF(Flg::D, false) => "CLD",
        Op::SetF(Flg::D, true) => "SED",
        Op::SetF(Flg::V, false) => "CLV",
        Op::SetF(_, _) => "???",
        Op::Pha => "PHA",
        Op::Php => "PHP",
        Op::Pla => "PLA",
        Op::Plp => "PLP",
        Op::Nop => "NOP",
        Op::Ill => "???",
    }
}

} // verus!
