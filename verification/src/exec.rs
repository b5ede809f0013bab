//! The fetch-decode-execute engine.
//!
//! `step_model` is the mathematical model of one instruction: from a
//! register file and a memory image it gives the next register file, the
//! next memory image, and the outcome (a cycle count, or a classified
//! illegal-opcode report).  The executable `step` is proved to follow the
//! model exactly, and the free-run driver `run_steps` is proved to follow
//! the model's iteration.

use vstd::prelude::*;

use crate::addr::{branch_target, crossed, ea, operand_val, page_of, pc_after, Mode};
use crate::arith::{
    adc_carry, adc_overflow, adc_result, cmp_flags, sbc_carry, sbc_overflow, sbc_result,
    update_carry_overflow_for_add, update_carry_overflow_for_sub,
};
use crate::arith::compare;
use crate::addr::{fetch_operand, resolve_ea};
use crate::cpu::{
    pull_from_stack, pull_word_from_stack, push_to_stack, push_word_to_stack, pulled_val,
    pulled_word, pushed_mem, pushed_word, sp_after_pull, sp_after_push, Cpu,
};
use crate::flags::{flags_of_byte, flags_to_byte, forced_bu, update_zero_negative, zn, Flags};
use crate::mem::{mem_word, wrap16, wrap8, Memory, BREAK_VECTOR_LOBYTE};
use crate::opcode::{decode, instr, Flg, Instr, Op, Reg};

verus! {

/// The outcome of one step: either an executed instruction with its
/// cycle cost, or a classified report of an officially undefined opcode
/// (on which the machine state is left untouched).
#[derive(Clone, Copy, PartialEq, Eq, Structural, Debug)]
pub enum StepResult {
    /// One instruction executed, costing this many cycles.
    Ran { cycles: u8 },
    /// The opcode byte at the program counter is officially undefined.
    Illegal { opcode: u8 },
}

/// The effect of one step on the whole machine: registers, memory, and
/// outcome.  Used only in specifications.
pub struct StepEffect {
    /// The register file after the step.
    pub cpu: Cpu,
    /// The memory image after the step.
    pub mem: Seq<u8>,
    /// The step's outcome.
    pub out: StepResult,
}

/// The value of a selectable flag.
pub open spec fn flag_val(f: Flags, sel: Flg) -> bool {
    match sel {
        Flg::C => f.c,
        Flg::Z => f.z,
        Flg::V => f.v,
        Flg::N => f.n,
        Flg::I => f.i,
        Flg::D => f.d,
    }
}

/// The flag set with one selectable flag given a value.
pub open spec fn set_flag(f: Flags, sel: Flg, v: bool) -> Flags {
    match sel {
        Flg::C => Flags { c: v, ..f },
        Flg::Z => Flags { z: v, ..f },
        Flg::V => Flags { v: v, ..f },
        Flg::N => Flags { n: v, ..f },
        Flg::I => Flags { i: v, ..f },
        Flg::D => Flags { d: v, ..f },
    }
}

/// The value of a selectable register.
pub open spec fn reg_of(c: Cpu, rg: Reg) -> u8 {
    match rg {
        Reg::A => c.ac,
        Reg::X => c.xr,
        Reg::Y => c.yr,
    }
}

/// The register file with one selectable register given a value.
pub open spec fn set_reg(c: Cpu, rg: Reg, v: u8) -> Cpu {
    match rg {
        Reg::A => Cpu { ac: v, ..c },
        Reg::X => Cpu { xr: v, ..c },
        Reg::Y => Cpu { yr: v, ..c },
    }
}

/// Builds a step effect with an executed outcome.
pub open spec fn eff(c: Cpu, m: Seq<u8>, cycles: u8) -> StepEffect {
    StepEffect { cpu: c, mem: m, out: StepResult::Ran { cycles } }
}

/// An instruction's cycle cost: the base count, plus one when the
/// instruction pays the page-cross penalty and its indexed address
/// computation crossed a page.
pub open spec fn cycles_of(i: Instr, c: Cpu, m: Seq<u8>) -> u8 {
    if i.penalty && crossed(i.mode, c, m) {
        ((i.cycles + 1) % 0x100) as u8
    } else {
        i.cycles
    }
}

/// The cycle cost of a taken branch: one more than the base of two,
/// and a further one when the target sits on a different page than the
/// instruction that follows the branch.
pub open spec fn branch_cycles(pc_next: u16, target: u16) -> u8 {
    if page_of(target) != page_of(pc_next) {
        4
    } else {
        3
    }
}

/// The effect of a shift or rotate: result byte `r` and carry-out
/// `carry` go to the accumulator in accumulator mode, else to the
/// operand address; Negative, Zero and Carry are set.
pub open spec fn shift_eff(
    mode: Mode,
    c: Cpu,
    m: Seq<u8>,
    r: u8,
    carry: bool,
    pc_next: u16,
    cycles: u8,
) -> StepEffect {
    let st = Flags { c: carry, ..zn(c.st, r) };
    if mode == Mode::Acc {
        eff(Cpu { pc: pc_next, ac: r, st, ..c }, m, cycles)
    } else {
        eff(Cpu { pc: pc_next, st, ..c }, m.update(ea(mode, c, m) as int, r), cycles)
    }
}

/// The force-break microsequence: the program counter advanced past the
/// two-byte break instruction is pushed high byte first, then the
/// status byte with Break and Unused forced set; Interrupt-Disable is
/// set on the live flags and the program counter is loaded from the
/// break vector.  Costs seven cycles.
pub open spec fn brk_effect(c: Cpu, m: Seq<u8>) -> StepEffect {
    let ret = wrap16(c.pc + 2);
    let m1 = pushed_word(m, c.sp, ret);
    let m2 = pushed_mem(m1, wrap8(c.sp - 2), flags_to_byte(forced_bu(c.st)));
    StepEffect {
        cpu: Cpu {
            pc: mem_word(m2, BREAK_VECTOR_LOBYTE),
            sp: wrap8(c.sp - 3),
            st: (Flags { i: true, ..c.st }),
            ..c
        },
        mem: m2,
        out: StepResult::Ran { cycles: 7 },
    }
}

/// The effect of a honored interrupt request: the same push/vector
/// sequence as force-break, but the program counter is pushed as it
/// stands, not advanced past a break instruction.
pub open spec fn irq_effect(c: Cpu, m: Seq<u8>) -> StepEffect {
    let m1 = pushed_word(m, c.sp, c.pc);
    let m2 = pushed_mem(m1, wrap8(c.sp - 2), flags_to_byte(forced_bu(c.st)));
    StepEffect {
        cpu: Cpu {
            pc: mem_word(m2, BREAK_VECTOR_LOBYTE),
            sp: wrap8(c.sp - 3),
            st: (Flags { i: true, ..c.st }),
            ..c
        },
        mem: m2,
        out: StepResult::Ran { cycles: 7 },
    }
}

/// The model of the operand-reading register instructions: loads, the
/// bitwise operations, bit test, add and subtract with carry, and the
/// compares.  Opaque; reveal it to reason about one of these.
#[verifier::opaque]
pub open spec fn read_model(c: Cpu, m: Seq<u8>) -> StepEffect {
    let code = m[c.pc as int];
    let i = instr(code);
    let pcn = pc_after(c, i.mode);
    let val = operand_val(i.mode, c, m);
    let cyc = cycles_of(i, c, m);
    match i.op {
        Op::Load(rg) => eff(Cpu { pc: pcn, st: zn(c.st, val), ..set_reg(c, rg, val) }, m, cyc),
        Op::And => eff(Cpu { pc: pcn, ac: c.ac & val, st: zn(c.st, c.ac & val), ..c }, m, cyc),
        Op::Ora => eff(Cpu { pc: pcn, ac: c.ac | val, st: zn(c.st, c.ac | val), ..c }, m, cyc),
        Op::Eor => eff(Cpu { pc: pcn, ac: c.ac ^ val, st: zn(c.st, c.ac ^ val), ..c }, m, cyc),
        Op::Bit => eff(
            Cpu {
                pc: pcn,
                st: (Flags {
                    z: (c.ac & val) == 0,
                    n: val >= 0x80,
                    v: (val / 0x40) % 2 == 1,
                    ..c.st
                }),
                ..c
            },
            m,
            cyc,
        ),
        Op::Adc => eff(
            Cpu {
                pc: pcn,
                ac: adc_result(c.ac, val, c.st.c),
                st: (Flags {
                    c: adc_carry(c.ac, val, c.st.c),
                    v: adc_overflow(c.ac, val, c.st.c),
                    ..zn(c.st, adc_result(c.ac, val, c.st.c))
                }),
                ..c
            },
            m,
            cyc,
        ),
        Op::Sbc => eff(
            Cpu {
                pc: pcn,
                ac: sbc_result(c.ac, val, c.st.c),
                st: (Flags {
                    c: sbc_carry(c.ac, val, c.st.c),
                    v: sbc_overflow(c.ac, val, c.st.c),
                    ..zn(c.st, sbc_result(c.ac, val, c.st.c))
                }),
                ..c
            },
            m,
            cyc,
        ),
        Op::Cmp(rg) => eff(Cpu { pc: pcn, st: cmp_flags(c.st, reg_of(c, rg), val), ..c }, m, cyc),
        _ => eff(c, m, 0),
    }
}

/// The model of the register-only instructions: transfers, register
/// increments and decrements, flag set/clear, and no-operation.
/// Opaque; reveal it to reason about one of these.
#[verifier::opaque]
pub open spec fn reg_model(c: Cpu, m: Seq<u8>) -> StepEffect {
    let code = m[c.pc as int];
    let i = instr(code);
    let pcn = pc_after(c, i.mode);
    let cyc = cycles_of(i, c, m);
    match i.op {
        Op::Tax => eff(Cpu { pc: pcn, xr: c.ac, st: zn(c.st, c.ac), ..c }, m, cyc),
        Op::Tay => eff(Cpu { pc: pcn, yr: c.ac, st: zn(c.st, c.ac), ..c }, m, cyc),
        Op::Txa => eff(Cpu { pc: pcn, ac: c.xr, st: zn(c.st, c.xr), ..c }, m, cyc),
        Op::Tya => eff(Cpu { pc: pcn, ac: c.yr, st: zn(c.st, c.yr), ..c }, m, cyc),
        Op::Tsx => eff(Cpu { pc: pcn, xr: c.sp, st: zn(c.st, c.sp), ..c }, m, cyc),
        Op::Txs => eff(Cpu { pc: pcn, sp: c.xr, ..c }, m, cyc),
        Op::Inx => eff(
            Cpu { pc: pcn, xr: wrap8(c.xr + 1), st: zn(c.st, wrap8(c.xr + 1)), ..c },
            m,
            cyc,
        ),
        Op::Iny => eff(
            Cpu { pc: pcn, yr: wrap8(c.yr + 1), st: zn(c.st, wrap8(c.yr + 1)), ..c },
            m,
            cyc,
        ),
        Op::Dex => eff(
            Cpu { pc: pcn, xr: wrap8(c.xr - 1), st: zn(c.st, wrap8(c.xr - 1)), ..c },
            m,
            cyc,
        ),
        Op::Dey => eff(
            Cpu { pc: pcn, yr: wrap8(c.yr - 1), st: zn(c.st, wrap8(c.yr - 1)), ..c },
            m,
            cyc,
        ),
        Op::SetF(fl, v) => eff(Cpu { pc: pcn, st: set_flag(c.st, fl, v), ..c }, m, cyc),
        Op::Nop => eff(Cpu { pc: pcn, ..c }, m, cyc),
        _ => eff(c, m, 0),
    }
}

/// The model of the shifts and rotates.  Opaque; reveal it to reason
/// about one of these.
#[verifier::opaque]
pub open spec fn shift_model(c: Cpu, m: Seq<u8>) -> StepEffect {
    let code = m[c.pc as int];
    let i = instr(code);
    let pcn = pc_after(c, i.mode);
    let val = operand_val(i.mode, c, m);
    let cyc = cycles_of(i, c, m);
    match i.op {
        Op::Asl => shift_eff(i.mode, c, m, wrap8(val * 2), val >= 0x80, pcn, cyc),
        Op::Lsr => shift_eff(i.mode, c, m, val / 2, val % 2 == 1, pcn, cyc),
        Op::Rol => shift_eff(
            i.mode,
            c,
            m,
            wrap8(val * 2 + (if c.st.c {
                1int
            } else {
                0
            })),
            val >= 0x80,
            pcn,
            cyc,
        ),
        Op::Ror => shift_eff(
            i.mode,
            c,
            m,
            ((val / 2) + (if c.st.c {
                0x80int
            } else {
                0
            })) as u8,
            val % 2 == 1,
            pcn,
            cyc,
        ),
        _ => eff(c, m, 0),
    }
}

/// The model of the memory-writing instructions: stores and the memory
/// increment and decrement.  Opaque; reveal it to reason about one of
/// these.
#[verifier::opaque]
pub open spec fn store_model(c: Cpu, m: Seq<u8>) -> StepEffect {
    let code = m[c.pc as int];
    let i = instr(code);
    let pcn = pc_after(c, i.mode);
    let val = operand_val(i.mode, c, m);
    let addr = ea(i.mode, c, m);
    let cyc = cycles_of(i, c, m);
    match i.op {
        Op::Store(rg) => eff(Cpu { pc: pcn, ..c }, m.update(addr as int, reg_of(c, rg)), cyc),
        Op::IncMem => eff(
            Cpu { pc: pcn, st: zn(c.st, wrap8(val + 1)), ..c },
            m.update(addr as int, wrap8(val + 1)),
            cyc,
        ),
        Op::DecMem => eff(
            Cpu { pc: pcn, st: zn(c.st, wrap8(val - 1)), ..c },
            m.update(addr as int, wrap8(val - 1)),
            cyc,
        ),
        _ => eff(c, m, 0),
    }
}

/// The model of the control-flow instructions: jumps, subroutine call
/// and return, interrupt return, force break, and the branches.
/// Opaque; reveal it to reason about one of these.
#[verifier::opaque]
pub open spec fn flow_model(c: Cpu, m: Seq<u8>) -> StepEffect {
    let code = m[c.pc as int];
    let i = instr(code);
    let pcn = pc_after(c, i.mode);
    let val = operand_val(i.mode, c, m);
    let addr = ea(i.mode, c, m);
    let cyc = cycles_of(i, c, m);
    match i.op {
        Op::Jmp => eff(Cpu { pc: addr, ..c }, m, cyc),
        Op::Jsr => eff(
            Cpu { pc: addr, sp: wrap8(c.sp - 2), ..c },
            pushed_word(m, c.sp, wrap16(c.pc + 2)),
            cyc,
        ),
        Op::Rts => eff(
            Cpu { pc: wrap16(pulled_word(m, c.sp) + 1), sp: wrap8(c.sp + 2), ..c },
            m,
            cyc,
        ),
        Op::Rti => eff(
            Cpu {
                pc: pulled_word(m, sp_after_pull(c.sp)),
                sp: wrap8(c.sp + 3),
                st: flags_of_byte(pulled_val(m, c.sp)),
                ..c
            },
            m,
            cyc,
        ),
        Op::Brk => brk_effect(c, m),
        Op::Bra(fl, expected) => {
            if flag_val(c.st, fl) != expected {
                eff(Cpu { pc: pcn, ..c }, m, 2)
            } else {
                let target = branch_target(pcn, val);
                eff(Cpu { pc: target, ..c }, m, branch_cycles(pcn, target))
            }
        },
        _ => eff(c, m, 0),
    }
}

/// The model of the stack instructions: push and pull of the
/// accumulator and of the status byte.  Opaque; reveal it to reason
/// about one of these.
#[verifier::opaque]
pub open spec fn stack_model(c: Cpu, m: Seq<u8>) -> StepEffect {
    let code = m[c.pc as int];
    let i = instr(code);
    let pcn = pc_after(c, i.mode);
    let cyc = cycles_of(i, c, m);
    match i.op {
        Op::Pha => eff(
            Cpu { pc: pcn, sp: sp_after_push(c.sp), ..c },
            pushed_mem(m, c.sp, c.ac),
            cyc,
        ),
        Op::Php => eff(
            Cpu { pc: pcn, sp: sp_after_push(c.sp), ..c },
            pushed_mem(m, c.sp, flags_to_byte(forced_bu(c.st))),
            cyc,
        ),
        Op::Pla => eff(
            Cpu {
                pc: pcn,
                sp: sp_after_pull(c.sp),
                ac: pulled_val(m, c.sp),
                st: zn(c.st, pulled_val(m, c.sp)),
                ..c
            },
            m,
            cyc,
        ),
        Op::Plp => eff(
            Cpu { pc: pcn, sp: sp_after_pull(c.sp), st: flags_of_byte(pulled_val(m, c.sp)), ..c },
            m,
            cyc,
        ),
        _ => eff(c, m, 0),
    }
}

/// The model of one fetch-decode-execute step, for every opcode byte:
/// dispatches on the decoded operation to the instruction-group models.
/// Opaque, so that iterated runs treat one step as a unit; reveal it
/// (and the group model concerned) to reason about a single
/// instruction.
#[verifier::opaque]
pub open spec fn step_model(c: Cpu, m: Seq<u8>) -> StepEffect {
    let code = m[c.pc as int];
    let i = instr(code);
    match i.op {
        Op::Load(_) | Op::And | Op::Ora | Op::Eor | Op::Bit | Op::Adc | Op::Sbc | Op::Cmp(
            _,
        ) => read_model(c, m),
        Op::Tax | Op::Tay | Op::Txa | Op::Tya | Op::Tsx | Op::Txs | Op::Inx | Op::Iny | Op::Dex
            | Op::Dey | Op::SetF(_, _) | Op::Nop => reg_model(c, m),
        Op::Asl | Op::Lsr | Op::Rol | Op::Ror => shift_model(c, m),
        Op::Store(_) | Op::IncMem | Op::DecMem => store_model(c, m),
        Op::Jmp | Op::Jsr | Op::Rts | Op::Rti | Op::Brk | Op::Bra(_, _) => flow_model(c, m),
        Op::Pha | Op::Php | Op::Pla | Op::Plp => stack_model(c, m),
        Op::Ill => StepEffect { cpu: c, mem: m, out: StepResult::Illegal { opcode: code } },
    }
}

/// Reads a selectable flag.
fn get_flag(f: &Flags, sel: Flg) -> (r: bool)
    ensures
        r == flag_val(*f, sel),
{
    match sel {
        Flg::C => f.c,
        Flg::Z => f.z,
        Flg::V => f.v,
        Flg::N => f.n,
        Flg::I => f.i,
        Flg::D => f.d,
    }
}

/// Writes a selectable flag.
fn put_flag(f: &mut Flags, sel: Flg, v: bool)
    ensures
        *final(f) == set_flag(*old(f), sel, v),
{
    match sel {
        Flg::C => f.c = v,
        Flg::Z => f.z = v,
        Flg::V => f.v = v,
        Flg::N => f.n = v,
        Flg::I => f.i = v,
        Flg::D => f.d = v,
    }
}

/// Reads a selectable register.
fn get_reg(cpu: &Cpu, rg: Reg) -> (r: u8)
    ensures
        r == reg_of(*cpu, rg),
{
    match rg {
        Reg::A => cpu.ac,
        Reg::X => cpu.xr,
        Reg::Y => cpu.yr,
    }
}

/// Writes a selectable register.
fn put_reg(cpu: &mut Cpu, rg: Reg, v: u8)
    ensures
        *final(cpu) == set_reg(*old(cpu), rg, v),
{
    match rg {
        Reg::A => cpu.ac = v,
        Reg::X => cpu.xr = v,
        Reg::Y => cpu.yr = v,
    }
}

/// The program counter advanced past the opcode and its operand bytes.
fn next_pc(cpu: &Cpu, mode: Mode) -> (r: u16)
    ensures
        r == pc_after(*cpu, mode),
{
    let len: u16 = match mode {
        Mode::Imp => 0,
        Mode::Acc => 0,
        Mode::Imm => 1,
        Mode::Zpg => 1,
        Mode::Zpx => 1,
        Mode::Zpy => 1,
        Mode::Abs => 2,
        Mode::Abx => 2,
        Mode::Aby => 2,
        Mode::Ind => 2,
        Mode::Izx => 1,
        Mode::Izy => 1,
        Mode::Rel => 1,
    };
    ((cpu.pc as u32 + 1 + len as u32) % 0x10000) as u16
}

/// An instruction's cycle cost, page-cross penalty included.
fn cycle_cost(i: &Instr, cpu: &Cpu, mem: &Memory) -> (r: u8)
    requires
        mem.wf(),
    ensures
        r == cycles_of(*i, *cpu, mem@),
{
    if i.penalty {
        let crossed_now: bool = match i.mode {
            Mode::Abx | Mode::Aby | Mode::Izy => {
                let (_a, cr) = resolve_ea(i.mode, cpu, mem);
                cr
            },
            _ => false,
        };
        if crossed_now {
            ((i.cycles as u16 + 1) % 0x100) as u8
        } else {
            i.cycles
        }
    } else {
        i.cycles
    }
}

/// Force break: the interrupt microsequence through the break vector.
pub fn i00(cpu: &mut Cpu, mem: &mut Memory)
    requires
        old(mem).wf(),
    ensures
        final(mem).wf(),
        *final(cpu) == brk_effect(*old(cpu), old(mem)@).cpu,
        final(mem)@ == brk_effect(*old(cpu), old(mem)@).mem,
{
    let ret: u16 = ((cpu.pc as u32 + 2) % 0x10000) as u16;
    push_word_to_stack(ret, cpu, mem);
    let mut pushed: Flags = cpu.st;
    pushed.b = true;
    pushed.u = true;
    push_to_stack(pushed.to_byte(), cpu, mem);
    cpu.st.i = true;
    cpu.pc = mem.read_word(BREAK_VECTOR_LOBYTE);
}

/// No operation: advances the program counter by one byte and touches
/// nothing else.
pub fn iea(cpu: &mut Cpu, mem: &mut Memory)
    ensures
        *final(cpu) == (Cpu { pc: wrap16(old(cpu).pc + 1), ..*old(cpu) }),
        *final(mem) == *old(mem),
{
    cpu.pc = ((cpu.pc as u32 + 1) % 0x10000) as u16;
}

/// The do-nothing handler: leaves every register, flag and memory byte
/// unchanged.  Offered to callers who configure reserved opcodes as a
/// documented no-op instead of acting on the classified report that
/// `step` returns.
pub fn ixx(cpu: &mut Cpu, mem: &mut Memory)
    ensures
        *final(cpu) == *old(cpu),
        *final(mem) == *old(mem),
{
}

/// Whether the decoded record, the advanced program counter and the
/// cycle cost handed to an instruction-group handler belong to the
/// opcode byte at the program counter.
pub open spec fn decoded_ok(c: Cpu, m: Seq<u8>, code: u8, i: Instr, pcn: u16, cyc: u8) -> bool {
    &&& m.len() == 65536
    &&& code == m[c.pc as int]
    &&& i == instr(code)
    &&& pcn == pc_after(c, i.mode)
    &&& cyc == cycles_of(i, c, m)
}

/// Executes the operand-reading register instructions: loads, the
/// bitwise operations, bit test, add and subtract with carry, and the
/// compares.
#[verifier::rlimit(100)]
fn step_read_group(cpu: &mut Cpu, mem: &mut Memory, code: u8, i: Instr, pcn: u16, cyc: u8) -> (r:
    StepResult)
    requires
        old(mem).wf(),
        decoded_ok(*old(cpu), old(mem)@, code, i, pcn, cyc),
        i.op matches Op::Load(_) || i.op == Op::And || i.op == Op::Ora || i.op == Op::Eor || i.op
            == Op::Bit || i.op == Op::Adc || i.op == Op::Sbc || i.op matches Op::Cmp(_),
    ensures
        final(mem).wf(),
        *final(cpu) == step_model(*old(cpu), old(mem)@).cpu,
        final(mem)@ == step_model(*old(cpu), old(mem)@).mem,
        r == step_model(*old(cpu), old(mem)@).out,
        r is Illegal ==> *final(cpu) == *old(cpu) && final(mem)@ == old(mem)@,
{
    proof {
        reveal(crate::exec::read_model);
        reveal(crate::exec::step_model);
    }
    let (v, _cr) = fetch_operand(i.mode, cpu, mem);
    match i.op {
        Op::Load(rg) => {
            put_reg(cpu, rg, v);
            update_zero_negative(&mut cpu.st, v);
        },
        Op::And => {
            let v2 = cpu.ac & v;
            cpu.ac = v2;
            update_zero_negative(&mut cpu.st, v2);
        },
        Op::Ora => {
            let v2 = cpu.ac | v;
            cpu.ac = v2;
            update_zero_negative(&mut cpu.st, v2);
        },
        Op::Eor => {
            let v2 = cpu.ac ^ v;
            cpu.ac = v2;
            update_zero_negative(&mut cpu.st, v2);
        },
        Op::Bit => {
            cpu.st.z = (cpu.ac & v) == 0;
            cpu.st.n = v >= 0x80;
            cpu.st.v = (v / 0x40) % 2 == 1;
        },
        Op::Adc => {
            let a = cpu.ac;
            let r2 = update_carry_overflow_for_add(&mut cpu.st, a, v);
            cpu.ac = r2;
            update_zero_negative(&mut cpu.st, r2);
        },
        Op::Sbc => {
            let a = cpu.ac;
            let r2 = update_carry_overflow_for_sub(&mut cpu.st, a, v);
            cpu.ac = r2;
            update_zero_negative(&mut cpu.st, r2);
        },
        Op::Cmp(rg) => {
            let rv = get_reg(cpu, rg);
            compare(&mut cpu.st, rv, v);
        },
        _ => {
            proof {
                assert(false);
            }
        },
    }
    cpu.pc = pcn;
    StepResult::Ran { cycles: cyc }
}

/// Executes the register-only instructions: transfers, register
/// increments and decrements, flag set/clear, and no-operation.
#[verifier::rlimit(100)]
fn step_reg_group(cpu: &mut Cpu, mem: &mut Memory, code: u8, i: Instr, pcn: u16, cyc: u8) -> (r:
    StepResult)
    requires
        old(mem).wf(),
        decoded_ok(*old(cpu), old(mem)@, code, i, pcn, cyc),
        i.op == Op::Tax || i.op == Op::Tay || i.op == Op::Txa || i.op == Op::Tya || i.op == Op::Tsx
            || i.op == Op::Txs || i.op == Op::Inx || i.op == Op::Iny || i.op == Op::Dex || i.op
            == Op::Dey || i.op matches Op::SetF(_, _) || i.op == Op::Nop,
    ensures
        final(mem).wf(),
        *final(cpu) == step_model(*old(cpu), old(mem)@).cpu,
        final(mem)@ == step_model(*old(cpu), old(mem)@).mem,
        r == step_model(*old(cpu), old(mem)@).out,
        r is Illegal ==> *final(cpu) == *old(cpu) && final(mem)@ == old(mem)@,
{
    proof {
        reveal(crate::exec::reg_model);
        reveal(crate::exec::step_model);
    }
    match i.op {
        Op::Tax => {
            let v = cpu.ac;
            cpu.xr = v;
            update_zero_negative(&mut cpu.st, v);
        },
        Op::Tay => {
            let v = cpu.ac;
            cpu.yr = v;
            update_zero_negative(&mut cpu.st, v);
        },
        Op::Txa => {
            let v = cpu.xr;
            cpu.ac = v;
            update_zero_negative(&mut cpu.st, v);
        },
        Op::Tya => {
            let v = cpu.yr;
            cpu.ac = v;
            update_zero_negative(&mut cpu.st, v);
        },
        Op::Tsx => {
            let v = cpu.sp;
            cpu.xr = v;
            update_zero_negative(&mut cpu.st, v);
        },
        Op::Txs => {
            cpu.sp = cpu.xr;
        },
        Op::Inx => {
            let v2: u8 = ((cpu.xr as u16 + 1) % 0x100) as u8;
            cpu.xr = v2;
            update_zero_negative(&mut cpu.st, v2);
        },
        Op::Iny => {
            let v2: u8 = ((cpu.yr as u16 + 1) % 0x100) as u8;
            cpu.yr = v2;
            update_zero_negative(&mut cpu.st, v2);
        },
        Op::Dex => {
            let v2: u8 = ((cpu.xr as u16 + 0x100 - 1) % 0x100) as u8;
            cpu.xr = v2;
            update_zero_negative(&mut cpu.st, v2);
        },
        Op::Dey => {
            let v2: u8 = ((cpu.yr as u16 + 0x100 - 1) % 0x100) as u8;
            cpu.yr = v2;
            update_zero_negative(&mut cpu.st, v2);
        },
        Op::SetF(fl, v) => {
            put_flag(&mut cpu.st, fl, v);
        },
        Op::Nop => {
        },
        _ => {
            proof {
                assert(false);
            }
        },
    }
    cpu.pc = pcn;
    StepResult::Ran { cycles: cyc }
}

/// Executes the shifts and rotates, on the accumulator or on memory.
#[verifier::rlimit(100)]
fn step_shift_group(cpu: &mut Cpu, mem: &mut Memory, code: u8, i: Instr, pcn: u16, cyc: u8) -> (r:
    StepResult)
    requires
        old(mem).wf(),
        decoded_ok(*old(cpu), old(mem)@, code, i, pcn, cyc),
        i.op == Op::Asl || i.op == Op::Lsr || i.op == Op::Rol || i.op == Op::Ror,
    ensures
        final(mem).wf(),
        *final(cpu) == step_model(*old(cpu), old(mem)@).cpu,
        final(mem)@ == step_model(*old(cpu), old(mem)@).mem,
        r == step_model(*old(cpu), old(mem)@).out,
        r is Illegal ==> *final(cpu) == *old(cpu) && final(mem)@ == old(mem)@,
{
    proof {
        reveal(crate::exec::shift_model);
        reveal(crate::exec::step_model);
    }
    let (v, _cr) = fetch_operand(i.mode, cpu, mem);
    let (r2, carry): (u8, bool) = match i.op {
        Op::Asl => (((v as u16 * 2) % 0x100) as u8, v >= 0x80),
        Op::Lsr => (v / 2, v % 2 == 1),
        Op::Rol => {
            let carry_in: u16 = if cpu.st.c {
                1
            } else {
                0
            };
            (((v as u16 * 2 + carry_in) % 0x100) as u8, v >= 0x80)
        },
        Op::Ror => {
            let high: u8 = if cpu.st.c {
                0x80
            } else {
                0
            };
            (v / 2 + high, v % 2 == 1)
        },
        _ => {
            proof {
                assert(false);
            }
            (0, false)
        },
    };
    match i.mode {
        Mode::Acc => {
            cpu.ac = r2;
        },
        _ => {
            let (a, _p) = resolve_ea(i.mode, cpu, mem);
            mem.write(a, r2);
        },
    }
    cpu.st.c = carry;
    update_zero_negative(&mut cpu.st, r2);
    cpu.pc = pcn;
    StepResult::Ran { cycles: cyc }
}

/// Executes the memory-writing instructions: stores and the memory
/// increment and decrement.
#[verifier::rlimit(100)]
fn step_store_group(cpu: &mut Cpu, mem: &mut Memory, code: u8, i: Instr, pcn: u16, cyc: u8) -> (r:
    StepResult)
    requires
        old(mem).wf(),
        decoded_ok(*old(cpu), old(mem)@, code, i, pcn, cyc),
        i.op matches Op::Store(_) || i.op == Op::IncMem || i.op == Op::DecMem,
    ensures
        final(mem).wf(),
        *final(cpu) == step_model(*old(cpu), old(mem)@).cpu,
        final(mem)@ == step_model(*old(cpu), old(mem)@).mem,
        r == step_model(*old(cpu), old(mem)@).out,
        r is Illegal ==> *final(cpu) == *old(cpu) && final(mem)@ == old(mem)@,
{
    proof {
        reveal(crate::exec::store_model);
        reveal(crate::exec::step_model);
    }
    let (a, _cr) = resolve_ea(i.mode, cpu, mem);
    let (v, _p) = fetch_operand(i.mode, cpu, mem);
    match i.op {
        Op::Store(rg) => {
            let rv = get_reg(cpu, rg);
            mem.write(a, rv);
        },
        Op::IncMem => {
            let v2: u8 = ((v as u16 + 1) % 0x100) as u8;
            mem.write(a, v2);
            update_zero_negative(&mut cpu.st, v2);
        },
        Op::DecMem => {
            let v2: u8 = ((v as u16 + 0x100 - 1) % 0x100) as u8;
            mem.write(a, v2);
            update_zero_negative(&mut cpu.st, v2);
        },
        _ => {
            proof {
                assert(false);
            }
        },
    }
    cpu.pc = pcn;
    StepResult::Ran { cycles: cyc }
}

/// Executes the jump instructions: jump, subroutine call, subroutine
/// return, and interrupt return.
#[verifier::rlimit(100)]
fn step_jump_group(cpu: &mut Cpu, mem: &mut Memory, code: u8, i: Instr, pcn: u16, cyc: u8) -> (r:
    StepResult)
    requires
        old(mem).wf(),
        decoded_ok(*old(cpu), old(mem)@, code, i, pcn, cyc),
        i.op == Op::Jmp || i.op == Op::Jsr || i.op == Op::Rts || i.op == Op::Rti,
    ensures
        final(mem).wf(),
        *final(cpu) == step_model(*old(cpu), old(mem)@).cpu,
        final(mem)@ == step_model(*old(cpu), old(mem)@).mem,
        r == step_model(*old(cpu), old(mem)@).out,
        r is Illegal ==> *final(cpu) == *old(cpu) && final(mem)@ == old(mem)@,
{
    proof {
        reveal(crate::exec::flow_model);
        reveal(crate::exec::step_model);
    }
    match i.op {
        Op::Jmp => {
            let (a, _cr) = resolve_ea(i.mode, cpu, mem);
            cpu.pc = a;
        },
        Op::Jsr => {
            let (a, _cr) = resolve_ea(i.mode, cpu, mem);
            let ret: u16 = ((cpu.pc as u32 + 2) % 0x10000) as u16;
            push_word_to_stack(ret, cpu, mem);
            cpu.pc = a;
        },
        Op::Rts => {
            let w = pull_word_from_stack(cpu, mem);
            cpu.pc = ((w as u32 + 1) % 0x10000) as u16;
        },
        Op::Rti => {
            let stb = pull_from_stack(cpu, mem);
            let w = pull_word_from_stack(cpu, mem);
            cpu.st = Flags::from_byte(stb);
            cpu.pc = w;
        },
        _ => {
            proof {
                assert(false);
            }
        },
    }
    StepResult::Ran { cycles: cyc }
}

/// Executes force break and the branches.
#[verifier::rlimit(100)]
fn step_branch_group(cpu: &mut Cpu, mem: &mut Memory, code: u8, i: Instr, pcn: u16, cyc: u8) -> (r:
    StepResult)
    requires
        old(mem).wf(),
        decoded_ok(*old(cpu), old(mem)@, code, i, pcn, cyc),
        i.op == Op::Brk || i.op matches Op::Bra(_, _),
    ensures
        final(mem).wf(),
        *final(cpu) == step_model(*old(cpu), old(mem)@).cpu,
        final(mem)@ == step_model(*old(cpu), old(mem)@).mem,
        r == step_model(*old(cpu), old(mem)@).out,
        r is Illegal ==> *final(cpu) == *old(cpu) && final(mem)@ == old(mem)@,
{
    proof {
        reveal(crate::exec::flow_model);
        reveal(crate::exec::step_model);
    }
    match i.op {
        Op::Brk => {
            i00(cpu, mem);
            StepResult::Ran { cycles: 7 }
        },
        Op::Bra(fl, expected) => {
            let (off, _cr) = fetch_operand(i.mode, cpu, mem);
            let taken = get_flag(&cpu.st, fl) == expected;
            if !taken {
                cpu.pc = pcn;
                StepResult::Ran { cycles: 2 }
            } else {
                let target: u16 = if off < 0x80 {
                    ((pcn as u32 + off as u32) % 0x10000) as u16
                } else {
                    ((pcn as u32 + off as u32 + 0x10000 - 0x100) % 0x10000) as u16
                };
                let cycles: u8 = if target / 0x100 != pcn / 0x100 {
                    4
                } else {
                    3
                };
                cpu.pc = target;
                StepResult::Ran { cycles }
            }
        },
        _ => {
            proof {
                assert(false);
            }
            StepResult::Ran { cycles: 0 }
        },
    }
}

/// Executes the stack instructions: push and pull of the accumulator
/// and of the status byte.
#[verifier::rlimit(100)]
fn step_stack_group(cpu: &mut Cpu, mem: &mut Memory, code: u8, i: Instr, pcn: u16, cyc: u8) -> (r:
    StepResult)
    requires
        old(mem).wf(),
        decoded_ok(*old(cpu), old(mem)@, code, i, pcn, cyc),
        i.op == Op::Pha || i.op == Op::Php || i.op == Op::Pla || i.op == Op::Plp,
    ensures
        final(mem).wf(),
        *final(cpu) == step_model(*old(cpu), old(mem)@).cpu,
        final(mem)@ == step_model(*old(cpu), old(mem)@).mem,
        r == step_model(*old(cpu), old(mem)@).out,
        r is Illegal ==> *final(cpu) == *old(cpu) && final(mem)@ == old(mem)@,
{
    proof {
        reveal(crate::exec::stack_model);
        reveal(crate::exec::step_model);
    }
    match i.op {
        Op::Pha => {
            let v = cpu.ac;
            push_to_stack(v, cpu, mem);
        },
        Op::Php => {
            let mut pushed: Flags = cpu.st;
            pushed.b = true;
            pushed.u = true;
            push_to_stack(pushed.to_byte(), cpu, mem);
        },
        Op::Pla => {
            let v = pull_from_stack(cpu, mem);
            cpu.ac = v;
            update_zero_negative(&mut cpu.st, v);
        },
        Op::Plp => {
            let v = pull_from_stack(cpu, mem);
            cpu.st = Flags::from_byte(v);
        },
        _ => {
            proof {
                assert(false);
            }
        },
    }
    cpu.pc = pcn;
    StepResult::Ran { cycles: cyc }
}

/// Reports an officially undefined opcode: the classified report is
/// returned and the whole machine state is left untouched.
fn step_ill(cpu: &mut Cpu, mem: &mut Memory, code: u8, i: Instr, pcn: u16, cyc: u8) -> (r:
    StepResult)
    requires
        old(mem).wf(),
        decoded_ok(*old(cpu), old(mem)@, code, i, pcn, cyc),
        i.op == Op::Ill,
    ensures
        final(mem).wf(),
        *final(cpu) == step_model(*old(cpu), old(mem)@).cpu,
        final(mem)@ == step_model(*old(cpu), old(mem)@).mem,
        r == step_model(*old(cpu), old(mem)@).out,
        r is Illegal ==> *final(cpu) == *old(cpu) && final(mem)@ == old(mem)@,
{
    proof {
        reveal(crate::exec::step_model);
    }
    StepResult::Illegal { opcode: code }
}

/// Executes exactly one instruction: fetches the opcode byte at the
/// program counter, decodes it, resolves its addressing mode, applies
/// its semantics, and returns the cycle cost — or, for an officially
/// undefined opcode, returns the classified report and leaves the whole
/// machine state untouched.
pub fn step(cpu: &mut Cpu, mem: &mut Memory) -> (r: StepResult)
    requires
        old(mem).wf(),
    ensures
        final(mem).wf(),
        *final(cpu) == step_model(*old(cpu), old(mem)@).cpu,
        final(mem)@ == step_model(*old(cpu), old(mem)@).mem,
        r == step_model(*old(cpu), old(mem)@).out,
        r is Illegal ==> *final(cpu) == *old(cpu) && final(mem)@ == old(mem)@,
{
    let code = mem.read(cpu.pc);
    let i = decode(code);
    let pcn = next_pc(cpu, i.mode);
    let cyc = cycle_cost(&i, cpu, mem);
    match i.op {
        Op::Load(_) | Op::And | Op::Ora | Op::Eor | Op::Bit | Op::Adc | Op::Sbc | Op::Cmp(
            _,
        ) => step_read_group(cpu, mem, code, i, pcn, cyc),
        Op::Tax | Op::Tay | Op::Txa | Op::Tya | Op::Tsx | Op::Txs | Op::Inx | Op::Iny | Op::Dex
            | Op::Dey | Op::SetF(_, _) | Op::Nop => step_reg_group(cpu, mem, code, i, pcn, cyc),
        Op::Asl | Op::Lsr | Op::Rol | Op::Ror => step_shift_group(cpu, mem, code, i, pcn, cyc),
        Op::Store(_) | Op::IncMem | Op::DecMem => step_store_group(cpu, mem, code, i, pcn, cyc),
        Op::Jmp | Op::Jsr | Op::Rts | Op::Rti => step_jump_group(cpu, mem, code, i, pcn, cyc),
        Op::Brk | Op::Bra(_, _) => step_branch_group(cpu, mem, code, i, pcn, cyc),
        Op::Pha | Op::Php | Op::Pla | Op::Plp => step_stack_group(cpu, mem, code, i, pcn, cyc),
        Op::Ill => step_ill(cpu, mem, code, i, pcn, cyc),
    }
}

/// Services a pending interrupt request at the instruction boundary.
/// Honored only when Interrupt-Disable is clear: then the program
/// counter and the status byte (Break and Unused forced set in the
/// pushed copy) go to the stack, Interrupt-Disable is set, and execution
/// continues at the break/interrupt vector.  Returns whether the
/// request was honored.
pub fn irq(cpu: &mut Cpu, mem: &mut Memory) -> (taken: bool)
    requires
        old(mem).wf(),
    ensures
        final(mem).wf(),
        old(cpu).st.i ==> !taken && *final(cpu) == *old(cpu) && final(mem)@ == old(mem)@,
        !old(cpu).st.i ==> taken && *final(cpu) == irq_effect(*old(cpu), old(mem)@).cpu
            && final(mem)@ == irq_effect(*old(cpu), old(mem)@).mem,
{
    if cpu.st.i {
        return false;
    }
    let ret: u16 = cpu.pc;
    push_word_to_stack(ret, cpu, mem);
    let mut pushed: Flags = cpu.st;
    pushed.b = true;
    pushed.u = true;
    push_to_stack(pushed.to_byte(), cpu, mem);
    cpu.st.i = true;
    cpu.pc = mem.read_word(BREAK_VECTOR_LOBYTE);
    true
}

/// The machine after a bounded free run, together with the accumulated
/// cycle count.  Used only in specifications.
pub struct RunEffect {
    /// The register file after the run.
    pub cpu: Cpu,
    /// The memory image after the run.
    pub mem: Seq<u8>,
    /// The cycles the executed instructions cost in total.
    pub cycles: int,
}

/// The model of a free run of at most `fuel` instructions: steps
/// repeatedly, stopping early when an officially undefined opcode is
/// reported, and adds up the cycle costs.
pub open spec fn run_model(c: Cpu, m: Seq<u8>, fuel: nat) -> RunEffect
    decreases fuel,
{
    if fuel == 0 {
        RunEffect { cpu: c, mem: m, cycles: 0 }
    } else {
        let e = step_model(c, m);
        match e.out {
            StepResult::Illegal { opcode } => RunEffect { cpu: c, mem: m, cycles: 0 },
            StepResult::Ran { cycles } => {
                let rest = run_model(e.cpu, e.mem, (fuel - 1) as nat);
                RunEffect { cpu: rest.cpu, mem: rest.mem, cycles: cycles + rest.cycles }
            },
        }
    }
}

/// The free-run driver: executes up to `max_steps` instructions by
/// repeated `step` calls — identical per-instruction semantics — and
/// returns the accumulated cycle count.  Stops early when a classified
/// illegal opcode is reported, leaving the machine exactly at that
/// instruction.
#[verifier::rlimit(100)]
pub fn run_steps(cpu: &mut Cpu, mem: &mut Memory, max_steps: u32) -> (cycles: u64)
    requires
        old(mem).wf(),
    ensures
        final(mem).wf(),
        *final(cpu) == run_model(*old(cpu), old(mem)@, max_steps as nat).cpu,
        final(mem)@ == run_model(*old(cpu), old(mem)@, max_steps as nat).mem,
        cycles as int == run_model(*old(cpu), old(mem)@, max_steps as nat).cycles,
{
    let ghost c0 = *cpu;
    let ghost m0 = mem@;
    let mut acc: u64 = 0;
    let mut i: u32 = 0;
    while i < max_steps
        invariant
            c0 == *old(cpu),
            m0 == old(mem)@,
            mem.wf(),
            i <= max_steps,
            acc <= 255 * (i as int),
            run_model(c0, m0, max_steps as nat).cpu == run_model(
                *cpu,
                mem@,
                (max_steps - i) as nat,
            ).cpu,
            run_model(c0, m0, max_steps as nat).mem == run_model(
                *cpu,
                mem@,
                (max_steps - i) as nat,
            ).mem,
            run_model(c0, m0, max_steps as nat).cycles == acc + run_model(
                *cpu,
                mem@,
                (max_steps - i) as nat,
            ).cycles,
        decreases max_steps - i,
    {
        let ghost c_top = *cpu;
        let ghost m_top = mem@;
        let ghost fuel_left = (max_steps - i) as nat;
        let r = step(cpu, mem);
        match r {
            StepResult::Illegal { opcode: _ } => {
                proof {
                    assert(step_model(c_top, m_top).out is Illegal);
                    assert(run_model(c_top, m_top, fuel_left) == RunEffect {
                        cpu: c_top,
                        mem: m_top,
                        cycles: 0int,
                    });
                }
                return acc;
            },
            StepResult::Ran { cycles } => {
                acc += cycles as u64;
            },
        }
        i += 1;
    }
    acc
}

} // verus!
