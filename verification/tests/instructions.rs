use mos6502::cpu::Cpu;
use mos6502::exec::{irq, iea, ixx, i00, run_steps, step, StepResult};
use mos6502::mem::Memory;
use mos6502::opcode::mnemonic;

fn machine() -> (Cpu, Memory) {
    let mut cpu = Cpu::new();
    cpu.sp = 0xff;
    cpu.st.u = true;
    cpu.pc = 0x0400;
    (cpu, Memory::new())
}

fn ran(r: StepResult) -> u8 {
    match r {
        StepResult::Ran { cycles } => cycles,
        other => panic!("unexpected outcome {:?}", other),
    }
}

#[test]
fn lda_immediate_sets_zero_and_negative() {
    let (mut cpu, mut mem) = machine();
    mem.write(0x0400, 0xa9);
    mem.write(0x0401, 0x00);
    let c = ran(step(&mut cpu, &mut mem));
    assert_eq!(c, 2);
    assert_eq!(cpu.ac, 0x00);
    assert!(cpu.st.z);
    assert!(!cpu.st.n);

    mem.write(0x0402, 0xa9);
    mem.write(0x0403, 0x80);
    ran(step(&mut cpu, &mut mem));
    assert_eq!(cpu.ac, 0x80);
    assert!(!cpu.st.z);
    assert!(cpu.st.n);
}

#[test]
fn sta_stores_without_touching_flags() {
    let (mut cpu, mut mem) = machine();
    cpu.ac = 0x00;
    cpu.st.z = false;
    cpu.st.n = true;
    mem.write(0x0400, 0x8d);
    mem.write(0x0401, 0x34);
    mem.write(0x0402, 0x12);
    let c = ran(step(&mut cpu, &mut mem));
    assert_eq!(c, 4);
    assert_eq!(mem.read(0x1234), 0x00);
    assert!(!cpu.st.z);
    assert!(cpu.st.n);
    assert_eq!(cpu.pc, 0x0403);
}

#[test]
fn adc_signed_overflow_and_carry() {
    // 0x50 + 0x50 = 0xA0: Overflow and Negative set, Carry clear.
    let (mut cpu, mut mem) = machine();
    cpu.ac = 0x50;
    mem.write(0x0400, 0x69);
    mem.write(0x0401, 0x50);
    ran(step(&mut cpu, &mut mem));
    assert_eq!(cpu.ac, 0xa0);
    assert!(cpu.st.v);
    assert!(cpu.st.n);
    assert!(!cpu.st.c);
    assert!(!cpu.st.z);
}

#[test]
fn adc_carry_out_and_carry_in() {
    let (mut cpu, mut mem) = machine();
    cpu.ac = 0xff;
    mem.write(0x0400, 0x69);
    mem.write(0x0401, 0x01);
    ran(step(&mut cpu, &mut mem));
    assert_eq!(cpu.ac, 0x00);
    assert!(cpu.st.c);
    assert!(cpu.st.z);
    assert!(!cpu.st.v);

    // Carry chains into the next addition.
    mem.write(0x0402, 0x69);
    mem.write(0x0403, 0x10);
    ran(step(&mut cpu, &mut mem));
    assert_eq!(cpu.ac, 0x11);
    assert!(!cpu.st.c);
}

#[test]
fn sbc_with_and_without_borrow() {
    // With Carry set (no borrow): 0x50 - 0x30 = 0x20, Carry stays set.
    let (mut cpu, mut mem) = machine();
    cpu.ac = 0x50;
    cpu.st.c = true;
    mem.write(0x0400, 0xe9);
    mem.write(0x0401, 0x30);
    ran(step(&mut cpu, &mut mem));
    assert_eq!(cpu.ac, 0x20);
    assert!(cpu.st.c);

    // 0x10 - 0x20 borrows: result 0xF0, Carry cleared.
    let (mut cpu2, mut mem2) = machine();
    cpu2.ac = 0x10;
    cpu2.st.c = true;
    mem2.write(0x0400, 0xe9);
    mem2.write(0x0401, 0x20);
    ran(step(&mut cpu2, &mut mem2));
    assert_eq!(cpu2.ac, 0xf0);
    assert!(!cpu2.st.c);
    assert!(cpu2.st.n);
}

#[test]
fn cmp_sets_flags_like_subtraction() {
    let (mut cpu, mut mem) = machine();
    cpu.ac = 0x40;
    mem.write(0x0400, 0xc9);
    mem.write(0x0401, 0x40);
    ran(step(&mut cpu, &mut mem));
    assert!(cpu.st.z);
    assert!(cpu.st.c);
    assert!(!cpu.st.n);
    assert_eq!(cpu.ac, 0x40);

    mem.write(0x0402, 0xc9);
    mem.write(0x0403, 0x50);
    ran(step(&mut cpu, &mut mem));
    assert!(!cpu.st.z);
    assert!(!cpu.st.c);
    assert!(cpu.st.n);
}

#[test]
fn logical_operations_set_zero_negative_only() {
    let (mut cpu, mut mem) = machine();
    cpu.ac = 0b1100_1100;
    cpu.st.c = true;
    mem.write(0x0400, 0x29); // bitwise AND, immediate
    mem.write(0x0401, 0b1010_1010);
    ran(step(&mut cpu, &mut mem));
    assert_eq!(cpu.ac, 0b1000_1000);
    assert!(cpu.st.n);
    assert!(!cpu.st.z);
    assert!(cpu.st.c);

    mem.write(0x0402, 0x49); // exclusive OR, immediate
    mem.write(0x0403, 0b1000_1000);
    ran(step(&mut cpu, &mut mem));
    assert_eq!(cpu.ac, 0x00);
    assert!(cpu.st.z);

    mem.write(0x0404, 0x09); // bitwise OR, immediate
    mem.write(0x0405, 0x01);
    ran(step(&mut cpu, &mut mem));
    assert_eq!(cpu.ac, 0x01);
    assert!(!cpu.st.z);
    assert!(!cpu.st.n);
}

#[test]
fn bit_copies_operand_bits_to_flags() {
    let (mut cpu, mut mem) = machine();
    cpu.ac = 0x01;
    mem.write(0x0400, 0x24);
    mem.write(0x0401, 0x10);
    mem.write(0x0010, 0xc0); // bits 7 and 6 set, low bits clear
    ran(step(&mut cpu, &mut mem));
    assert!(cpu.st.n);
    assert!(cpu.st.v);
    assert!(cpu.st.z); // 0x01 AND 0xC0 == 0
    assert_eq!(cpu.ac, 0x01);
}

#[test]
fn shifts_and_rotates_move_carry() {
    let (mut cpu, mut mem) = machine();
    cpu.ac = 0x81;
    mem.write(0x0400, 0x0a); // shift left, accumulator
    ran(step(&mut cpu, &mut mem));
    assert_eq!(cpu.ac, 0x02);
    assert!(cpu.st.c);

    mem.write(0x0401, 0x2a); // rotate left: carry enters bit 0
    ran(step(&mut cpu, &mut mem));
    assert_eq!(cpu.ac, 0x05);
    assert!(!cpu.st.c);

    mem.write(0x0402, 0x4a); // shift right
    ran(step(&mut cpu, &mut mem));
    assert_eq!(cpu.ac, 0x02);
    assert!(cpu.st.c);

    mem.write(0x0403, 0x6a); // rotate right: carry enters bit 7
    ran(step(&mut cpu, &mut mem));
    assert_eq!(cpu.ac, 0x81);
    assert!(!cpu.st.c);
}

#[test]
fn shift_on_memory_writes_result_back() {
    let (mut cpu, mut mem) = machine();
    mem.write(0x0400, 0x06); // shift left, zero page
    mem.write(0x0401, 0x20);
    mem.write(0x0020, 0x40);
    let c = ran(step(&mut cpu, &mut mem));
    assert_eq!(c, 5);
    assert_eq!(mem.read(0x0020), 0x80);
    assert!(cpu.st.n);
    assert!(!cpu.st.c);
}

#[test]
fn inc_and_dec_wrap_and_set_flags() {
    let (mut cpu, mut mem) = machine();
    mem.write(0x0400, 0xe6); // increment memory, zero page
    mem.write(0x0401, 0x10);
    mem.write(0x0010, 0xff);
    ran(step(&mut cpu, &mut mem));
    assert_eq!(mem.read(0x0010), 0x00);
    assert!(cpu.st.z);

    mem.write(0x0402, 0xc6); // decrement memory, zero page
    mem.write(0x0403, 0x10);
    ran(step(&mut cpu, &mut mem));
    assert_eq!(mem.read(0x0010), 0xff);
    assert!(cpu.st.n);
}

#[test]
fn register_increments_wrap() {
    let (mut cpu, mut mem) = machine();
    cpu.xr = 0xff;
    cpu.yr = 0x00;
    mem.write(0x0400, 0xe8); // increment X
    mem.write(0x0401, 0x88); // decrement Y
    ran(step(&mut cpu, &mut mem));
    assert_eq!(cpu.xr, 0x00);
    assert!(cpu.st.z);
    ran(step(&mut cpu, &mut mem));
    assert_eq!(cpu.yr, 0xff);
    assert!(cpu.st.n);
}

#[test]
fn transfers_set_flags_except_to_stack_pointer() {
    let (mut cpu, mut mem) = machine();
    cpu.ac = 0x80;
    mem.write(0x0400, 0xaa); // transfer accumulator to X
    ran(step(&mut cpu, &mut mem));
    assert_eq!(cpu.xr, 0x80);
    assert!(cpu.st.n);

    cpu.st.z = false;
    cpu.st.n = false;
    cpu.xr = 0x00;
    mem.write(0x0401, 0x9a); // transfer X to stack pointer: no flags
    ran(step(&mut cpu, &mut mem));
    assert_eq!(cpu.sp, 0x00);
    assert!(!cpu.st.z);
    assert!(!cpu.st.n);

    mem.write(0x0402, 0xba); // transfer stack pointer to X: flags
    ran(step(&mut cpu, &mut mem));
    assert_eq!(cpu.xr, 0x00);
    assert!(cpu.st.z);
}

#[test]
fn jsr_and_rts_round_trip() {
    let (mut cpu, mut mem) = machine();
    mem.write(0x0400, 0x20); // jump to subroutine
    mem.write(0x0401, 0x00);
    mem.write(0x0402, 0x05);
    mem.write(0x0500, 0x60); // return from subroutine
    let c = ran(step(&mut cpu, &mut mem));
    assert_eq!(c, 6);
    assert_eq!(cpu.pc, 0x0500);
    assert_eq!(cpu.sp, 0xfd);
    // Return address minus one, high byte first.
    assert_eq!(mem.read(0x01ff), 0x04);
    assert_eq!(mem.read(0x01fe), 0x02);
    let c2 = ran(step(&mut cpu, &mut mem));
    assert_eq!(c2, 6);
    assert_eq!(cpu.pc, 0x0403);
    assert_eq!(cpu.sp, 0xff);
}

#[test]
fn php_forces_break_and_unused_in_pushed_byte_only() {
    let (mut cpu, mut mem) = machine();
    cpu.st.b = false;
    cpu.st.u = false;
    cpu.st.c = true;
    mem.write(0x0400, 0x08); // push status
    let c = ran(step(&mut cpu, &mut mem));
    assert_eq!(c, 3);
    let pushed = mem.read(0x01ff);
    assert_eq!(pushed & 0x30, 0x30);
    assert_eq!(pushed & 0x01, 0x01);
    // The live flags keep their runtime values.
    assert!(!cpu.st.b);
    assert!(!cpu.st.u);
}

#[test]
fn plp_restores_exactly_what_was_stored() {
    let (mut cpu, mut mem) = machine();
    cpu.sp = 0xfe;
    mem.write(0x01ff, 0x83); // Negative, Zero, Carry; Break and Unused clear
    mem.write(0x0400, 0x28); // pull status
    let c = ran(step(&mut cpu, &mut mem));
    assert_eq!(c, 4);
    assert!(cpu.st.n);
    assert!(cpu.st.z);
    assert!(cpu.st.c);
    assert!(!cpu.st.b);
    assert!(!cpu.st.u);
    assert!(!cpu.st.v);
    assert_eq!(cpu.sp, 0xff);
}

#[test]
fn pha_pla_round_trip() {
    let (mut cpu, mut mem) = machine();
    cpu.ac = 0x5a;
    mem.write(0x0400, 0x48); // push accumulator
    mem.write(0x0401, 0xa9); // load accumulator, immediate
    mem.write(0x0402, 0x00);
    mem.write(0x0403, 0x68); // pull accumulator
    ran(step(&mut cpu, &mut mem));
    ran(step(&mut cpu, &mut mem));
    assert_eq!(cpu.ac, 0x00);
    let c = ran(step(&mut cpu, &mut mem));
    assert_eq!(c, 4);
    assert_eq!(cpu.ac, 0x5a);
    assert_eq!(cpu.sp, 0xff);
    assert!(!cpu.st.z);
}

#[test]
fn rti_restores_status_and_program_counter() {
    let (mut cpu, mut mem) = machine();
    cpu.sp = 0xfc;
    mem.write(0x01fd, 0x03); // status: Zero and Carry
    mem.write(0x01fe, 0x21); // low byte of return address
    mem.write(0x01ff, 0x43); // high byte
    mem.write(0x0400, 0x40); // return from interrupt
    let c = ran(step(&mut cpu, &mut mem));
    assert_eq!(c, 6);
    assert_eq!(cpu.pc, 0x4321);
    assert!(cpu.st.z);
    assert!(cpu.st.c);
    assert!(!cpu.st.i);
    assert_eq!(cpu.sp, 0xff);
}

#[test]
fn flag_set_and_clear_instructions_touch_one_flag() {
    let (mut cpu, mut mem) = machine();
    mem.write(0x0400, 0x38); // set Carry
    mem.write(0x0401, 0x78); // set Interrupt-Disable
    mem.write(0x0402, 0xf8); // set Decimal
    mem.write(0x0403, 0x18); // clear Carry
    mem.write(0x0404, 0x58); // clear Interrupt-Disable
    mem.write(0x0405, 0xd8); // clear Decimal
    ran(step(&mut cpu, &mut mem));
    assert!(cpu.st.c);
    ran(step(&mut cpu, &mut mem));
    assert!(cpu.st.i);
    ran(step(&mut cpu, &mut mem));
    assert!(cpu.st.d);
    assert!(cpu.st.c && cpu.st.i);
    ran(step(&mut cpu, &mut mem));
    assert!(!cpu.st.c);
    ran(step(&mut cpu, &mut mem));
    assert!(!cpu.st.i);
    ran(step(&mut cpu, &mut mem));
    assert!(!cpu.st.d);

    cpu.st.v = true;
    mem.write(0x0406, 0xb8); // clear Overflow
    ran(step(&mut cpu, &mut mem));
    assert!(!cpu.st.v);
}

#[test]
fn absolute_indexed_page_cross_adds_one_cycle() {
    let (mut cpu, mut mem) = machine();
    cpu.xr = 0x01;
    mem.write(0x0400, 0xbd); // load accumulator, absolute indexed by X
    mem.write(0x0401, 0xff);
    mem.write(0x0402, 0x12); // base 0x12FF + 1 crosses into 0x1300
    mem.write(0x1300, 0x77);
    let far = ran(step(&mut cpu, &mut mem));
    assert_eq!(far, 5);
    assert_eq!(cpu.ac, 0x77);

    let (mut cpu2, mut mem2) = machine();
    cpu2.xr = 0x01;
    mem2.write(0x0400, 0xbd);
    mem2.write(0x0401, 0x00);
    mem2.write(0x0402, 0x12);
    mem2.write(0x1201, 0x66);
    let near = ran(step(&mut cpu2, &mut mem2));
    assert_eq!(near, 4);
    assert_eq!(cpu2.ac, 0x66);
}

#[test]
fn indirect_indexed_load_dereferences_then_indexes() {
    let (mut cpu, mut mem) = machine();
    cpu.yr = 0x02;
    mem.write(0x0400, 0xb1); // load accumulator, indirect indexed
    mem.write(0x0401, 0x20);
    mem.write(0x0020, 0x00);
    mem.write(0x0021, 0x30); // pointer 0x3000
    mem.write(0x3002, 0xab);
    ran(step(&mut cpu, &mut mem));
    assert_eq!(cpu.ac, 0xab);
}

#[test]
fn indexed_indirect_load_pre_indexes_in_page_zero() {
    let (mut cpu, mut mem) = machine();
    cpu.xr = 0x04;
    mem.write(0x0400, 0xa1); // load accumulator, indexed indirect
    mem.write(0x0401, 0xfe); // 0xFE + 0x04 wraps to 0x02
    mem.write(0x0002, 0x00);
    mem.write(0x0003, 0x40); // pointer 0x4000
    mem.write(0x4000, 0xcd);
    let c = ran(step(&mut cpu, &mut mem));
    assert_eq!(c, 6);
    assert_eq!(cpu.ac, 0xcd);
}

#[test]
fn undefined_opcode_is_reported_and_state_untouched() {
    let (mut cpu, mut mem) = machine();
    mem.write(0x0400, 0x02);
    let before_cpu = cpu;
    let r = step(&mut cpu, &mut mem);
    assert_eq!(r, StepResult::Illegal { opcode: 0x02 });
    assert_eq!(cpu, before_cpu);
    assert_eq!(mem.read(0x0400), 0x02);
}

#[test]
fn run_steps_accumulates_cycles_until_illegal() {
    let (mut cpu, mut mem) = machine();
    mem.write(0x0400, 0xa9); // load accumulator #0x01 (2 cycles)
    mem.write(0x0401, 0x01);
    mem.write(0x0402, 0x69); // add #0x02 (2 cycles)
    mem.write(0x0403, 0x02);
    mem.write(0x0404, 0xea); // no-operation (2 cycles)
    mem.write(0x0405, 0x02); // undefined: stops the run
    let cycles = run_steps(&mut cpu, &mut mem, 100);
    assert_eq!(cycles, 6);
    assert_eq!(cpu.ac, 0x03);
    assert_eq!(cpu.pc, 0x0405);
}

#[test]
fn run_steps_respects_the_step_bound() {
    let (mut cpu, mut mem) = machine();
    mem.write(0x0400, 0xea);
    mem.write(0x0401, 0xea);
    mem.write(0x0402, 0xea);
    let cycles = run_steps(&mut cpu, &mut mem, 2);
    assert_eq!(cycles, 4);
    assert_eq!(cpu.pc, 0x0402);
}

#[test]
fn irq_is_masked_by_interrupt_disable() {
    let (mut cpu, mut mem) = machine();
    cpu.st.i = true;
    let before = cpu;
    let taken = irq(&mut cpu, &mut mem);
    assert!(!taken);
    assert_eq!(cpu, before);
}

#[test]
fn irq_pushes_current_pc_and_jumps_to_vector() {
    let (mut cpu, mut mem) = machine();
    mem.write(0xfffe, 0x00);
    mem.write(0xffff, 0x06);
    cpu.pc = 0x1234;
    let taken = irq(&mut cpu, &mut mem);
    assert!(taken);
    assert_eq!(cpu.pc, 0x0600);
    assert!(cpu.st.i);
    assert_eq!(mem.read(0x01ff), 0x12);
    assert_eq!(mem.read(0x01fe), 0x34);
    assert_eq!(mem.read(0x01fd) & 0x30, 0x30);
    assert_eq!(cpu.sp, 0xfc);
}

#[test]
fn handler_functions_match_their_opcodes() {
    // The force-break handler: same effect as stepping a break opcode.
    let (mut cpu, mut mem) = machine();
    mem.write(0xfffe, 0x00);
    mem.write(0xffff, 0x05);
    cpu.pc = 0x0400;
    i00(&mut cpu, &mut mem);
    assert_eq!(cpu.pc, 0x0500);
    assert!(cpu.st.i);

    // The no-operation handler advances the program counter only.
    let (mut cpu2, mut mem2) = machine();
    cpu2.pc = 0xffff;
    iea(&mut cpu2, &mut mem2);
    assert_eq!(cpu2.pc, 0x0000);

    // The do-nothing handler changes nothing.
    let (mut cpu3, mut mem3) = machine();
    let before = cpu3;
    ixx(&mut cpu3, &mut mem3);
    assert_eq!(cpu3, before);
}

#[test]
fn mnemonics_name_the_opcodes() {
    assert_eq!(mnemonic(0x00), "BRK");
    assert_eq!(mnemonic(0xea), "NOP");
    assert_eq!(mnemonic(0xa9), "LDA");
    assert_eq!(mnemonic(0x6c), "JMP");
    assert_eq!(mnemonic(0xf0), "BEQ");
    assert_eq!(mnemonic(0x02), "???");
}

#[test]
fn ldx_ldy_stx_sty_move_the_index_registers() {
    let (mut cpu, mut mem) = machine();
    mem.write(0x0400, 0xa2); // load X, immediate
    mem.write(0x0401, 0x41);
    mem.write(0x0402, 0xa0); // load Y, immediate
    mem.write(0x0403, 0x42);
    mem.write(0x0404, 0x86); // store X, zero page
    mem.write(0x0405, 0x10);
    mem.write(0x0406, 0x8c); // store Y, absolute
    mem.write(0x0407, 0x00);
    mem.write(0x0408, 0x20);
    ran(step(&mut cpu, &mut mem));
    ran(step(&mut cpu, &mut mem));
    ran(step(&mut cpu, &mut mem));
    ran(step(&mut cpu, &mut mem));
    assert_eq!(cpu.xr, 0x41);
    assert_eq!(cpu.yr, 0x42);
    assert_eq!(mem.read(0x0010), 0x41);
    assert_eq!(mem.read(0x2000), 0x42);
}

#[test]
fn cpx_and_cpy_compare_index_registers() {
    let (mut cpu, mut mem) = machine();
    cpu.xr = 0x10;
    cpu.yr = 0x30;
    mem.write(0x0400, 0xe0); // compare X, immediate
    mem.write(0x0401, 0x10);
    mem.write(0x0402, 0xc0); // compare Y, immediate
    mem.write(0x0403, 0x40);
    ran(step(&mut cpu, &mut mem));
    assert!(cpu.st.z);
    assert!(cpu.st.c);
    ran(step(&mut cpu, &mut mem));
    assert!(!cpu.st.z);
    assert!(!cpu.st.c);
    assert!(cpu.st.n);
}

#[test]
fn indexed_store_has_fixed_cycle_cost() {
    // A store pays no page-cross penalty: absolute indexed by Y is
    // always five cycles, crossing or not.
    let (mut cpu, mut mem) = machine();
    cpu.ac = 0x77;
    cpu.yr = 0x01;
    mem.write(0x0400, 0x99); // store accumulator, absolute indexed by Y
    mem.write(0x0401, 0xff);
    mem.write(0x0402, 0x12);
    let c = ran(step(&mut cpu, &mut mem));
    assert_eq!(c, 5);
    assert_eq!(mem.read(0x1300), 0x77);
}

#[test]
fn indirect_indexed_page_cross_adds_one_cycle() {
    let (mut cpu, mut mem) = machine();
    cpu.yr = 0x01;
    mem.write(0x0400, 0xb1); // load accumulator, indirect indexed
    mem.write(0x0401, 0x20);
    mem.write(0x0020, 0xff);
    mem.write(0x0021, 0x30); // pointer 0x30FF; +1 crosses the page
    mem.write(0x3100, 0x55);
    let c = ran(step(&mut cpu, &mut mem));
    assert_eq!(c, 6);
    assert_eq!(cpu.ac, 0x55);
}

#[test]
fn counted_loop_runs_to_completion() {
    let (mut cpu, mut mem) = machine();
    mem.write(0x0400, 0xa2); // load X #0x03
    mem.write(0x0401, 0x03);
    mem.write(0x0402, 0xca); // decrement X
    mem.write(0x0403, 0xd0); // branch on Zero clear, back to 0x0402
    mem.write(0x0404, 0xfd);
    mem.write(0x0405, 0x02); // undefined: stops the run
    let cycles = run_steps(&mut cpu, &mut mem, 1000);
    // Load (2), two taken iterations (2+3 each), final untaken (2+2).
    assert_eq!(cycles, 16);
    assert_eq!(cpu.xr, 0x00);
    assert!(cpu.st.z);
    assert_eq!(cpu.pc, 0x0405);
}
