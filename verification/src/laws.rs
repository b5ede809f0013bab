//! Machine-wide laws, each proved against the specification model.

use vstd::prelude::*;

use crate::cpu::{pulled_val, pushed_mem, sp_after_pull, sp_after_push};
use crate::exec::{branch_cycles, step_model, StepResult};
use crate::mem::wrap16;
use crate::cpu::Cpu;
use crate::addr::page_of;

verus! {

/// Memory round-trip: for every address and byte value, writing the
/// byte and then reading the same address returns exactly that byte.
pub proof fn lemma_memory_round_trip(m: Seq<u8>, address: u16, value: u8)
    requires
        m.len() == 65536,
    ensures
        m.update(address as int, value)[address as int] == value,
{
}

/// Stack push/pull inverse: for any byte value, pushing it and then
/// pulling returns that byte, and the stack pointer returns to its
/// value before the push — at every stack offset, wrap-around included.
pub proof fn lemma_stack_push_pull_inverse(m: Seq<u8>, sp: u8, value: u8)
    requires
        m.len() == 65536,
    ensures
        sp_after_pull(sp_after_push(sp)) == sp,
        pulled_val(pushed_mem(m, sp, value), sp_after_push(sp)) == value,
{
}

/// No-operation: executing the no-operation opcode advances the
/// program counter by exactly one and leaves every register, every
/// flag, and every memory byte unchanged, from every machine state.
pub proof fn lemma_nop_preserves_state(c: Cpu, m: Seq<u8>)
    requires
        m[c.pc as int] == 0xea,
    ensures
        step_model(c, m).cpu == (Cpu { pc: wrap16(c.pc + 1), ..c }),
        step_model(c, m).mem == m,
        step_model(c, m).out == (StepResult::Ran { cycles: 2 }),
{
    reveal(crate::opcode::instr);
    reveal(crate::exec::step_model);
    reveal(crate::exec::reg_model);
}

/// Branch cycle cost: a taken branch whose target lies on a different
/// page than the instruction following the branch costs strictly more
/// cycles than an otherwise identical taken branch that stays on that
/// page.
pub proof fn lemma_branch_page_cross_costs_more(pc_next: u16, far: u16, near: u16)
    requires
        page_of(far) != page_of(pc_next),
        page_of(near) == page_of(pc_next),
    ensures
        branch_cycles(pc_next, far) > branch_cycles(pc_next, near),
{
}

} // verus!
