use mos6502::cpu::{pull_from_stack, push_to_stack, reset_cpu, Cpu};
use mos6502::exec::{step, StepResult};
use mos6502::mem::{byte_to_word, init_memory, Memory};

fn machine() -> (Cpu, Memory) {
    (Cpu::new(), Memory::new())
}

#[test]
fn memory_round_trip_returns_written_value() {
    let (_, mut mem) = machine();
    let cases: [(u16, u8); 6] = [
        (0x0000, 0x00),
        (0x0001, 0xff),
        (0x1234, 0x5a),
        (0x01ff, 0x80),
        (0xfffc, 0x37),
        (0xffff, 0x01),
    ];
    for (addr, val) in cases {
        mem.write(addr, val);
        assert_eq!(mem.read(addr), val);
    }
}

#[test]
fn read_word_is_little_endian() {
    let (_, mut mem) = machine();
    mem.write(0x0400, 0xcd);
    mem.write(0x0401, 0xab);
    assert_eq!(mem.read_word(0x0400), 0xabcd);
}

#[test]
fn read_word_wraps_high_byte_address() {
    let (_, mut mem) = machine();
    mem.write(0xffff, 0x34);
    mem.write(0x0000, 0x12);
    assert_eq!(mem.read_word(0xffff), 0x1234);
}

#[test]
fn byte_to_word_composes_low_and_high() {
    assert_eq!(byte_to_word(0x00, 0x04), 0x0400);
    assert_eq!(byte_to_word(0xff, 0xff), 0xffff);
    assert_eq!(byte_to_word(0x01, 0x00), 0x0001);
}

#[test]
fn init_memory_zeroes_every_location() {
    let (_, mut mem) = machine();
    mem.write(0x0000, 1);
    mem.write(0x8000, 2);
    mem.write(0xffff, 3);
    init_memory(&mut mem);
    assert_eq!(mem.read(0x0000), 0);
    assert_eq!(mem.read(0x8000), 0);
    assert_eq!(mem.read(0xffff), 0);
}

#[test]
fn reset_loads_vector_and_stack_pointer() {
    let (mut cpu, mut mem) = machine();
    mem.write(0xfffc, 0x00);
    mem.write(0xfffd, 0x04);
    reset_cpu(&mut cpu, &mem);
    assert_eq!(cpu.pc, 0x0400);
    assert_eq!(cpu.sp, 0xff);
    assert!(cpu.st.u);
}

#[test]
fn stack_push_pull_returns_value_and_pointer() {
    let (mut cpu, mut mem) = machine();
    cpu.sp = 0xff;
    for b in [0x00u8, 0x01, 0x7f, 0x80, 0xff] {
        let sp_before = cpu.sp;
        push_to_stack(b, &mut cpu, &mut mem);
        assert_eq!(cpu.sp, sp_before.wrapping_sub(1));
        let pulled = pull_from_stack(&mut cpu, &mem);
        assert_eq!(pulled, b);
        assert_eq!(cpu.sp, sp_before);
    }
}

#[test]
fn stack_pointer_wraps_at_zero() {
    let (mut cpu, mut mem) = machine();
    cpu.sp = 0x00;
    push_to_stack(0x42, &mut cpu, &mut mem);
    assert_eq!(cpu.sp, 0xff);
    assert_eq!(mem.read(0x0100), 0x42);
    let pulled = pull_from_stack(&mut cpu, &mem);
    assert_eq!(pulled, 0x42);
    assert_eq!(cpu.sp, 0x00);
}

#[test]
fn force_break_pushes_state_and_jumps_to_vector() {
    let (mut cpu, mut mem) = machine();
    mem.write(0xfffe, 0x00);
    mem.write(0xffff, 0x05);
    mem.write(0x0400, 0x00);
    cpu.pc = 0x0400;
    cpu.sp = 0xff;
    let r = step(&mut cpu, &mut mem);
    assert_eq!(r, StepResult::Ran { cycles: 7 });
    // Top of stack down: status with Break and Unused set, then the low
    // byte, then the high byte of 0x0402.
    let status = mem.read(0x01fd);
    assert_eq!(status & 0x30, 0x30);
    assert_eq!(mem.read(0x01fe), 0x02);
    assert_eq!(mem.read(0x01ff), 0x04);
    assert!(cpu.st.i);
    assert_eq!(cpu.pc, 0x0500);
    assert_eq!(cpu.sp, 0xfc);
}

#[test]
fn nop_advances_pc_and_changes_nothing_else() {
    let (mut cpu, mut mem) = machine();
    mem.write(0x0400, 0xea);
    cpu.pc = 0x0400;
    cpu.sp = 0xfd;
    cpu.ac = 0x12;
    cpu.xr = 0x34;
    cpu.yr = 0x56;
    cpu.st.c = true;
    cpu.st.u = true;
    let before = cpu;
    let r = step(&mut cpu, &mut mem);
    assert_eq!(r, StepResult::Ran { cycles: 2 });
    assert_eq!(cpu.pc, 0x0401);
    assert_eq!(cpu.sp, before.sp);
    assert_eq!(cpu.ac, before.ac);
    assert_eq!(cpu.xr, before.xr);
    assert_eq!(cpu.yr, before.yr);
    assert_eq!(cpu.st, before.st);
    for a in [0x0000u16, 0x0400, 0x0401, 0x01ff, 0xffff] {
        let expected = if a == 0x0400 { 0xea } else { 0x00 };
        assert_eq!(mem.read(a), expected);
    }
}

#[test]
fn zero_page_indexed_wraps_within_page_zero() {
    let (mut cpu, mut mem) = machine();
    // Base 0xFF indexed by 0x02 must resolve to 0x0001, not 0x0101.
    mem.write(0x0400, 0xb5); // load accumulator, zero page indexed by X
    mem.write(0x0401, 0xff);
    mem.write(0x0001, 0x99);
    mem.write(0x0101, 0x11);
    cpu.pc = 0x0400;
    cpu.xr = 0x02;
    let r = step(&mut cpu, &mut mem);
    assert_eq!(r, StepResult::Ran { cycles: 4 });
    assert_eq!(cpu.ac, 0x99);
}

#[test]
fn indirect_jump_bug_wraps_pointer_high_fetch() {
    let (mut cpu, mut mem) = machine();
    // Pointer at 0x30FF: the high byte comes from 0x3000, not 0x3100.
    mem.write(0x0400, 0x6c); // indirect jump
    mem.write(0x0401, 0xff);
    mem.write(0x0402, 0x30);
    mem.write(0x30ff, 0x80);
    mem.write(0x3000, 0x40);
    mem.write(0x3100, 0x99);
    cpu.pc = 0x0400;
    let r = step(&mut cpu, &mut mem);
    assert_eq!(r, StepResult::Ran { cycles: 5 });
    assert_eq!(cpu.pc, 0x4080);
}

#[test]
fn taken_branch_crossing_page_costs_more() {
    // Same-page taken branch.
    let (mut cpu, mut mem) = machine();
    mem.write(0x0400, 0xf0); // branch on Zero set
    mem.write(0x0401, 0x10);
    cpu.pc = 0x0400;
    cpu.st.z = true;
    let near = match step(&mut cpu, &mut mem) {
        StepResult::Ran { cycles } => cycles,
        other => panic!("unexpected outcome {:?}", other),
    };
    assert_eq!(cpu.pc, 0x0412);

    // Page-crossing taken branch from the same instruction address.
    let (mut cpu2, mut mem2) = machine();
    mem2.write(0x04f0, 0xf0);
    mem2.write(0x04f1, 0x20); // 0x04F2 + 0x20 = 0x0512: next page
    cpu2.pc = 0x04f0;
    cpu2.st.z = true;
    let far = match step(&mut cpu2, &mut mem2) {
        StepResult::Ran { cycles } => cycles,
        other => panic!("unexpected outcome {:?}", other),
    };
    assert_eq!(cpu2.pc, 0x0512);
    assert!(far > near);
    assert_eq!(near, 3);
    assert_eq!(far, 4);
}

#[test]
fn untaken_branch_costs_base_cycles() {
    let (mut cpu, mut mem) = machine();
    mem.write(0x0400, 0xf0);
    mem.write(0x0401, 0x10);
    cpu.pc = 0x0400;
    cpu.st.z = false;
    let r = step(&mut cpu, &mut mem);
    assert_eq!(r, StepResult::Ran { cycles: 2 });
    assert_eq!(cpu.pc, 0x0402);
}

#[test]
fn backward_branch_takes_negative_offset() {
    let (mut cpu, mut mem) = machine();
    mem.write(0x0410, 0xd0); // branch on Zero clear
    mem.write(0x0411, 0xfc); // -4
    cpu.pc = 0x0410;
    cpu.st.z = false;
    let r = step(&mut cpu, &mut mem);
    match r {
        StepResult::Ran { cycles } => assert!(cycles == 3 || cycles == 4),
        other => panic!("unexpected outcome {:?}", other),
    }
    assert_eq!(cpu.pc, 0x040e);
}

#[test]
fn device_window_registration_marks_addresses() {
    let (_, mut mem) = machine();
    assert!(!mem.is_device_address(0xc000));
    mem.write(0xc000, 0x42);
    mem.register_device_window(0xc000, 0xc0ff);
    assert!(mem.is_device_address(0xc000));
    assert!(mem.is_device_address(0xc0ff));
    assert!(!mem.is_device_address(0xbfff));
    assert!(!mem.is_device_address(0xc100));
    // Registration leaves the stored bytes untouched, and plain
    // storage semantics still hold inside the window.
    assert_eq!(mem.read(0xc000), 0x42);
    mem.write(0xc001, 0x99);
    assert_eq!(mem.read(0xc001), 0x99);
    assert!(mem.is_device_address(0xc001));
}
