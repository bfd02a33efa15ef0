use rustboy::cartridge::Cartridge;
use rustboy::cpu::CpuError;
use rustboy::io::GbSpeed;
use rustboy::machine::Machine;

fn machine_with(program: &[u8]) -> Machine {
    let mut rom = vec![0u8; 0x8000];
    for (i, byte) in program.iter().enumerate() {
        rom[0x100 + i] = *byte;
    }
    let cartridge = Cartridge::new(rom).unwrap();
    Machine::new(cartridge, 44100)
}

fn run(m: &mut Machine, steps: usize) -> u32 {
    let mut total = 0;
    for _ in 0..steps {
        total += m.emulate().unwrap();
    }
    total
}

#[test]
fn load_add_halt() {
    let mut m = machine_with(&[0x3e, 0x42, 0x06, 0x07, 0x80, 0x76]);
    assert_eq!(m.cpu.regs.pc, 0x0100);
    assert_eq!(m.emulate(), Ok(2));
    assert_eq!(m.emulate(), Ok(2));
    assert_eq!(m.emulate(), Ok(1));
    assert_eq!(m.emulate(), Ok(1));
    assert_eq!(m.cpu.regs.a, 0x49);
    assert_eq!(m.cpu.regs.b, 0x07);
    assert!(!m.cpu.regs.flags.z);
    assert!(!m.cpu.regs.flags.h);
    assert!(!m.cpu.regs.flags.c);
    assert_eq!(m.cpu.regs.pc, 0x0105);
    assert!(m.cpu.halted);
}

#[test]
fn halted_processor_idles_one_cycle() {
    let mut m = machine_with(&[0x76]);
    assert_eq!(m.emulate(), Ok(1));
    assert!(m.cpu.halted);
    assert_eq!(m.emulate(), Ok(1));
    assert_eq!(m.emulate(), Ok(1));
    assert!(m.cpu.halted);
    assert_eq!(m.cpu.regs.pc, 0x0100);
}

#[test]
fn add_with_carry_out() {
    let mut m = machine_with(&[0x3e, 0xff, 0xc6, 0x01]);
    m.cpu.regs.a = 0;
    run(&mut m, 2);
    assert_eq!(m.cpu.regs.a, 0x00);
    assert!(m.cpu.regs.flags.z);
    assert!(!m.cpu.regs.flags.n);
    assert!(m.cpu.regs.flags.h);
    assert!(m.cpu.regs.flags.c);
}

#[test]
fn decrement_from_zero() {
    let mut m = machine_with(&[0x3e, 0x00, 0x3d]);
    let carry_before = m.cpu.regs.flags.c;
    run(&mut m, 2);
    assert_eq!(m.cpu.regs.a, 0xff);
    assert!(!m.cpu.regs.flags.z);
    assert!(m.cpu.regs.flags.n);
    assert!(m.cpu.regs.flags.h);
    assert_eq!(m.cpu.regs.flags.c, carry_before);
}

#[test]
fn decrement_keeps_clear_carry() {
    let mut m = machine_with(&[0x3e, 0x00, 0x3d]);
    m.cpu.regs.flags.c = false;
    run(&mut m, 2);
    assert_eq!(m.cpu.regs.a, 0xff);
    assert!(!m.cpu.regs.flags.c);
}

#[test]
fn push_then_pop_restores_pair_and_stack_pointer() {
    // PUSH BC; POP BC; PUSH DE; POP DE; PUSH HL; POP HL; PUSH AF; POP AF
    let mut m = machine_with(&[0xc5, 0xc1, 0xd5, 0xd1, 0xe5, 0xe1, 0xf5, 0xf1]);
    let before = m.cpu.regs;
    assert_eq!(m.emulate(), Ok(4));
    assert_eq!(m.cpu.regs.sp, 0xfffc);
    assert_eq!(m.cpu.interconnect.read_byte(0xfffd), before.b);
    assert_eq!(m.cpu.interconnect.read_byte(0xfffc), before.c);
    assert_eq!(m.emulate(), Ok(3));
    assert_eq!(m.cpu.regs.sp, 0xfffe);
    run(&mut m, 6);
    let mut expected = before;
    expected.pc = 0x0108;
    assert_eq!(m.cpu.regs, expected);
}

#[test]
fn pop_af_drops_low_nibble() {
    // LD BC,0x12ff; PUSH BC; POP AF; PUSH AF; POP DE
    let mut m = machine_with(&[0x01, 0xff, 0x12, 0xc5, 0xf1, 0xf5, 0xd1]);
    run(&mut m, 3);
    assert_eq!(m.cpu.regs.af(), 0x12f0);
    assert_eq!(m.cpu.regs.f(), 0xf0);
    run(&mut m, 2);
    assert_eq!(m.cpu.regs.de(), 0x12f0);
}

#[test]
fn undefined_opcode_is_refused() {
    let mut m = machine_with(&[0x00, 0xd3]);
    assert_eq!(m.emulate(), Ok(1));
    assert_eq!(m.emulate(), Err(CpuError::UnimplementedOpcode(0xd3, 0x0101)));
    assert_eq!(m.cpu.regs.pc, 0x0101);
    assert_eq!(m.emulate(), Err(CpuError::UnimplementedOpcode(0xd3, 0x0101)));
}

#[test]
fn every_undefined_opcode_is_refused() {
    for opcode in [0xd3u8, 0xdb, 0xdd, 0xe3, 0xe4, 0xeb, 0xec, 0xed, 0xf4, 0xfc, 0xfd] {
        let mut m = machine_with(&[opcode]);
        assert_eq!(m.emulate(), Err(CpuError::UnimplementedOpcode(opcode, 0x0100)));
    }
}

#[test]
fn cycle_table_samples() {
    // NOP; LD B,C; LD B,(HL); JP 0x0150
    let mut m = machine_with(&[0x00, 0x41, 0x46, 0xc3, 0x50, 0x01]);
    assert_eq!(m.emulate(), Ok(1));
    assert_eq!(m.emulate(), Ok(1));
    assert_eq!(m.emulate(), Ok(2));
    assert_eq!(m.emulate(), Ok(4));
    assert_eq!(m.cpu.regs.pc, 0x0150);
}

#[test]
fn call_and_return() {
    // CALL 0x0110 ... at 0x0110: RET
    let mut program = vec![0u8; 0x20];
    program[0] = 0xcd;
    program[1] = 0x10;
    program[2] = 0x01;
    program[0x10] = 0xc9;
    let mut m = machine_with(&program);
    assert_eq!(m.emulate(), Ok(6));
    assert_eq!(m.cpu.regs.pc, 0x0110);
    assert_eq!(m.cpu.regs.sp, 0xfffc);
    assert_eq!(m.cpu.interconnect.read_word(0xfffc), 0x0103);
    assert_eq!(m.emulate(), Ok(4));
    assert_eq!(m.cpu.regs.pc, 0x0103);
    assert_eq!(m.cpu.regs.sp, 0xfffe);
}

#[test]
fn conditional_relative_jump_costs() {
    // XOR A (Z set); JR NZ,+2 (not taken); JR Z,+2 (taken)
    let mut m = machine_with(&[0xaf, 0x20, 0x02, 0x28, 0x02, 0x00, 0x00, 0x00]);
    assert_eq!(m.emulate(), Ok(1));
    assert!(m.cpu.regs.flags.z);
    assert_eq!(m.emulate(), Ok(2));
    assert_eq!(m.cpu.regs.pc, 0x0103);
    assert_eq!(m.emulate(), Ok(3));
    assert_eq!(m.cpu.regs.pc, 0x0107);
}

#[test]
fn relative_jump_backwards() {
    // NOP; JR -3 (back to 0x0100)
    let mut m = machine_with(&[0x00, 0x18, 0xfd]);
    run(&mut m, 2);
    assert_eq!(m.cpu.regs.pc, 0x0100);
}

#[test]
fn bit_on_register_and_on_memory() {
    // LD HL,0xc000; LD (HL),0x80; BIT 7,(HL); BIT 0,(HL); BIT 7,H
    let mut m = machine_with(&[0x21, 0x00, 0xc0, 0x36, 0x80, 0xcb, 0x7e, 0xcb, 0x46, 0xcb, 0x7c]);
    assert_eq!(m.emulate(), Ok(3));
    assert_eq!(m.emulate(), Ok(3));
    let carry = m.cpu.regs.flags.c;
    assert_eq!(m.emulate(), Ok(3));
    assert!(!m.cpu.regs.flags.z);
    assert!(!m.cpu.regs.flags.n);
    assert!(m.cpu.regs.flags.h);
    assert_eq!(m.cpu.regs.flags.c, carry);
    assert_eq!(m.emulate(), Ok(3));
    assert!(m.cpu.regs.flags.z);
    assert_eq!(m.emulate(), Ok(2));
    assert!(!m.cpu.regs.flags.z);
}

#[test]
fn set_res_swap_and_shifts() {
    // LD A,0x0f; SWAP A; SET 0,A; RES 7,A; SRL A; RLC A
    let mut m = machine_with(&[0x3e, 0x0f, 0xcb, 0x37, 0xcb, 0xc7, 0xcb, 0xbf, 0xcb, 0x3f, 0xcb, 0x07]);
    run(&mut m, 2);
    assert_eq!(m.cpu.regs.a, 0xf0);
    assert!(!m.cpu.regs.flags.c);
    assert_eq!(m.emulate(), Ok(2));
    assert_eq!(m.cpu.regs.a, 0xf1);
    m.emulate().unwrap();
    assert_eq!(m.cpu.regs.a, 0x71);
    m.emulate().unwrap();
    assert_eq!(m.cpu.regs.a, 0x38);
    assert!(m.cpu.regs.flags.c);
    m.emulate().unwrap();
    assert_eq!(m.cpu.regs.a, 0x70);
    assert!(!m.cpu.regs.flags.c);
}

#[test]
fn rotate_accumulator_clears_zero() {
    // XOR A; RLCA
    let mut m = machine_with(&[0xaf, 0x07]);
    run(&mut m, 2);
    assert_eq!(m.cpu.regs.a, 0);
    assert!(!m.cpu.regs.flags.z);
}

#[test]
fn decimal_adjust_after_addition() {
    // LD A,0x15; ADD A,0x27; DAA
    let mut m = machine_with(&[0x3e, 0x15, 0xc6, 0x27, 0x27]);
    run(&mut m, 3);
    assert_eq!(m.cpu.regs.a, 0x42);
    assert!(!m.cpu.regs.flags.c);
    assert!(!m.cpu.regs.flags.h);
}

#[test]
fn decimal_adjust_after_subtraction() {
    // LD A,0x42; SUB 0x15; DAA
    let mut m = machine_with(&[0x3e, 0x42, 0xd6, 0x15, 0x27]);
    run(&mut m, 3);
    assert_eq!(m.cpu.regs.a, 0x27);
    assert!(m.cpu.regs.flags.n);
}

#[test]
fn complement_and_carry_flags() {
    // LD A,0x0f; CPL; SCF; CCF
    let mut m = machine_with(&[0x3e, 0x0f, 0x2f, 0x37, 0x3f]);
    run(&mut m, 2);
    assert_eq!(m.cpu.regs.a, 0xf0);
    assert!(m.cpu.regs.flags.n && m.cpu.regs.flags.h);
    m.emulate().unwrap();
    assert!(m.cpu.regs.flags.c && !m.cpu.regs.flags.n && !m.cpu.regs.flags.h);
    m.emulate().unwrap();
    assert!(!m.cpu.regs.flags.c && !m.cpu.regs.flags.n && !m.cpu.regs.flags.h);
}

#[test]
fn add_hl_sets_half_and_full_carry() {
    // LD HL,0x0fff; LD BC,0x0001; ADD HL,BC; LD HL,0xffff; ADD HL,BC
    let mut m = machine_with(&[0x21, 0xff, 0x0f, 0x01, 0x01, 0x00, 0x09, 0x21, 0xff, 0xff, 0x09]);
    let zero = m.cpu.regs.flags.z;
    run(&mut m, 2);
    assert_eq!(m.emulate(), Ok(2));
    assert_eq!(m.cpu.regs.hl(), 0x1000);
    assert!(m.cpu.regs.flags.h);
    assert!(!m.cpu.regs.flags.c);
    assert!(!m.cpu.regs.flags.n);
    assert_eq!(m.cpu.regs.flags.z, zero);
    run(&mut m, 2);
    assert_eq!(m.cpu.regs.hl(), 0x0000);
    assert!(m.cpu.regs.flags.h);
    assert!(m.cpu.regs.flags.c);
}

#[test]
fn stack_pointer_plus_signed_displacement() {
    // LD SP,0xfff8; LD HL,SP+2; ADD SP,-8
    let mut m = machine_with(&[0x31, 0xf8, 0xff, 0xf8, 0x02, 0xe8, 0xf8]);
    m.emulate().unwrap();
    assert_eq!(m.emulate(), Ok(3));
    assert_eq!(m.cpu.regs.hl(), 0xfffa);
    assert!(!m.cpu.regs.flags.z && !m.cpu.regs.flags.n);
    assert!(!m.cpu.regs.flags.h && !m.cpu.regs.flags.c);
    assert_eq!(m.emulate(), Ok(4));
    assert_eq!(m.cpu.regs.sp, 0xfff0);
    assert!(m.cpu.regs.flags.h);
    assert!(m.cpu.regs.flags.c);
}

#[test]
fn post_increment_and_decrement_loads() {
    // LD HL,0xc000; LD A,0x11; LD (HL+),A; LD A,0x22; LD (HL-),A; LD A,(HL+); LD A,(HL-)
    let mut m = machine_with(&[0x21, 0x00, 0xc0, 0x3e, 0x11, 0x22, 0x3e, 0x22, 0x32, 0x2a, 0x3a]);
    run(&mut m, 3);
    assert_eq!(m.cpu.regs.hl(), 0xc001);
    run(&mut m, 2);
    assert_eq!(m.cpu.regs.hl(), 0xc000);
    assert_eq!(m.cpu.interconnect.read_byte(0xc000), 0x11);
    assert_eq!(m.cpu.interconnect.read_byte(0xc001), 0x22);
    assert_eq!(m.emulate(), Ok(2));
    assert_eq!(m.cpu.regs.a, 0x11);
    m.emulate().unwrap();
    assert_eq!(m.cpu.regs.a, 0x22);
    assert_eq!(m.cpu.regs.hl(), 0xc000);
}

#[test]
fn high_page_loads() {
    // LD A,0x5a; LDH (0x80),A; LD C,0x81; LD (C),A; XOR A; LDH A,(0x81)
    let mut m = machine_with(&[0x3e, 0x5a, 0xe0, 0x80, 0x0e, 0x81, 0xe2, 0xaf, 0xf0, 0x81]);
    m.emulate().unwrap();
    assert_eq!(m.emulate(), Ok(3));
    m.emulate().unwrap();
    assert_eq!(m.emulate(), Ok(2));
    assert_eq!(m.cpu.interconnect.read_byte(0xff80), 0x5a);
    assert_eq!(m.cpu.interconnect.read_byte(0xff81), 0x5a);
    m.emulate().unwrap();
    assert_eq!(m.emulate(), Ok(3));
    assert_eq!(m.cpu.regs.a, 0x5a);
}

#[test]
fn store_stack_pointer_at_address() {
    // LD (0xc010),SP
    let mut m = machine_with(&[0x08, 0x10, 0xc0]);
    assert_eq!(m.emulate(), Ok(5));
    assert_eq!(m.cpu.interconnect.read_word(0xc010), 0xfffe);
}

#[test]
fn restart_pushes_and_jumps() {
    // RST 0x28
    let mut m = machine_with(&[0xef]);
    assert_eq!(m.emulate(), Ok(4));
    assert_eq!(m.cpu.regs.pc, 0x0028);
    assert_eq!(m.cpu.interconnect.read_word(0xfffc), 0x0101);
}

#[test]
fn enable_interrupts_takes_effect_after_one_instruction() {
    // EI; NOP; NOP
    let mut m = machine_with(&[0xfb, 0x00, 0x00]);
    m.cpu.interconnect.write_byte(0xffff, 0x01);
    m.cpu.interconnect.write_byte(0xff0f, 0x01);
    assert_eq!(m.emulate(), Ok(1));
    assert!(!m.cpu.ime);
    assert_eq!(m.emulate(), Ok(1));
    assert_eq!(m.cpu.regs.pc, 0x0102);
    assert_eq!(m.emulate(), Ok(5));
    assert_eq!(m.cpu.regs.pc, 0x0040);
    assert!(!m.cpu.ime);
    assert_eq!(m.cpu.regs.sp, 0xfffc);
    assert_eq!(m.cpu.interconnect.read_word(0xfffc), 0x0102);
    assert_eq!(m.cpu.interconnect.read_byte(0xff0f) & 0x1f, 0x00);
}

#[test]
fn lowest_pending_bit_is_served_first() {
    let mut m = machine_with(&[0x00]);
    m.cpu.ime = true;
    m.cpu.interconnect.write_byte(0xffff, 0x1f);
    m.cpu.interconnect.write_byte(0xff0f, 0x14);
    assert_eq!(m.emulate(), Ok(5));
    assert_eq!(m.cpu.regs.pc, 0x0050);
    assert_eq!(m.cpu.interconnect.read_byte(0xff0f) & 0x1f, 0x10);
}

#[test]
fn masked_request_is_not_served() {
    let mut m = machine_with(&[0x00]);
    m.cpu.ime = true;
    m.cpu.interconnect.write_byte(0xffff, 0x02);
    m.cpu.interconnect.write_byte(0xff0f, 0x01);
    assert_eq!(m.emulate(), Ok(1));
    assert_eq!(m.cpu.regs.pc, 0x0101);
}

#[test]
fn pending_interrupt_wakes_halted_processor() {
    // HALT; INC A
    let mut m = machine_with(&[0x76, 0x3c]);
    m.cpu.interconnect.write_byte(0xffff, 0x04);
    m.emulate().unwrap();
    assert!(m.cpu.halted);
    m.emulate().unwrap();
    assert!(m.cpu.halted);
    let a = m.cpu.regs.a;
    m.cpu.interconnect.write_byte(0xff0f, 0x04);
    assert_eq!(m.emulate(), Ok(1));
    assert!(!m.cpu.halted);
    assert_eq!(m.cpu.regs.a, a.wrapping_add(1));
    assert_eq!(m.cpu.regs.pc, 0x0102);
}

#[test]
fn interrupt_from_halt_returns_after_the_halt() {
    let mut m = machine_with(&[0x76, 0x00]);
    m.cpu.ime = true;
    m.cpu.interconnect.write_byte(0xffff, 0x01);
    m.emulate().unwrap();
    assert!(m.cpu.halted);
    m.cpu.interconnect.write_byte(0xff0f, 0x01);
    assert_eq!(m.emulate(), Ok(5));
    assert_eq!(m.cpu.regs.pc, 0x0040);
    assert_eq!(m.cpu.interconnect.read_word(0xfffc), 0x0101);
}

#[test]
fn return_from_interrupt_enables_interrupts() {
    // at 0x0100: CALL 0x0110; at 0x0110: RETI
    let mut program = vec![0u8; 0x20];
    program[0] = 0xcd;
    program[1] = 0x10;
    program[2] = 0x01;
    program[0x10] = 0xd9;
    let mut m = machine_with(&program);
    m.emulate().unwrap();
    assert_eq!(m.emulate(), Ok(4));
    assert_eq!(m.cpu.regs.pc, 0x0103);
    m.emulate().unwrap();
    assert!(m.cpu.ime);
}

#[test]
fn stop_switches_speed_when_armed() {
    // STOP 0; STOP 0
    let mut m = machine_with(&[0x10, 0x00, 0x10, 0x00]);
    assert_eq!(m.emulate(), Ok(1));
    assert_eq!(m.cpu.regs.pc, 0x0102);
    assert_eq!(m.cpu.interconnect.speed(), GbSpeed::Single);
    m.cpu.interconnect.request_speed_switch();
    m.emulate().unwrap();
    assert_eq!(m.cpu.interconnect.speed(), GbSpeed::Double);
}

#[test]
fn compare_sets_flags_and_keeps_accumulator() {
    // LD A,0x10; CP 0x10; CP 0x20
    let mut m = machine_with(&[0x3e, 0x10, 0xfe, 0x10, 0xfe, 0x20]);
    run(&mut m, 2);
    assert_eq!(m.cpu.regs.a, 0x10);
    assert!(m.cpu.regs.flags.z && m.cpu.regs.flags.n && !m.cpu.regs.flags.c);
    m.emulate().unwrap();
    assert_eq!(m.cpu.regs.a, 0x10);
    assert!(!m.cpu.regs.flags.z && m.cpu.regs.flags.c);
}

#[test]
fn add_and_subtract_with_carry() {
    // SCF; LD A,0x0f; ADC A,0x00; SCF; SBC A,0x10
    let mut m = machine_with(&[0x37, 0x3e, 0x0f, 0xce, 0x00, 0x37, 0xde, 0x10]);
    run(&mut m, 3);
    assert_eq!(m.cpu.regs.a, 0x10);
    assert!(m.cpu.regs.flags.h && !m.cpu.regs.flags.c);
    run(&mut m, 2);
    assert_eq!(m.cpu.regs.a, 0xff);
    assert!(m.cpu.regs.flags.c && m.cpu.regs.flags.n);
}

#[test]
fn sixteen_bit_increment_wraps_without_flags() {
    // LD BC,0xffff; INC BC; DEC BC
    let mut m = machine_with(&[0x01, 0xff, 0xff, 0x03, 0x0b]);
    m.emulate().unwrap();
    let flags = m.cpu.regs.flags;
    assert_eq!(m.emulate(), Ok(2));
    assert_eq!(m.cpu.regs.bc(), 0x0000);
    m.emulate().unwrap();
    assert_eq!(m.cpu.regs.bc(), 0xffff);
    assert_eq!(m.cpu.regs.flags, flags);
}

#[test]
fn increment_memory_at_hl() {
    // LD HL,0xc000; LD (HL),0xff; INC (HL); DEC (HL)
    let mut m = machine_with(&[0x21, 0x00, 0xc0, 0x36, 0xff, 0x34, 0x35]);
    run(&mut m, 2);
    assert_eq!(m.emulate(), Ok(3));
    assert_eq!(m.cpu.interconnect.read_byte(0xc000), 0x00);
    assert!(m.cpu.regs.flags.z && m.cpu.regs.flags.h);
    assert_eq!(m.emulate(), Ok(3));
    assert_eq!(m.cpu.interconnect.read_byte(0xc000), 0xff);
    assert!(m.cpu.regs.flags.n && m.cpu.regs.flags.h && !m.cpu.regs.flags.z);
}

#[test]
fn jump_to_hl_and_load_sp_from_hl() {
    // LD HL,0x0150; LD SP,HL; JP HL
    let mut m = machine_with(&[0x21, 0x50, 0x01, 0xf9, 0xe9]);
    m.emulate().unwrap();
    assert_eq!(m.emulate(), Ok(2));
    assert_eq!(m.cpu.regs.sp, 0x0150);
    assert_eq!(m.emulate(), Ok(1));
    assert_eq!(m.cpu.regs.pc, 0x0150);
}

#[test]
fn conditional_call_return_and_jump_costs() {
    // XOR A (Z=1, C=0); CALL NZ,nn (not taken 3); JP C,nn (not taken 3); RET NZ (not taken 2);
    // CALL Z,0x0120 (taken 6); at 0x0120: RET Z (taken 5); JP NC,0x0130 (taken 4)
    let mut program = vec![0u8; 0x40];
    program[0] = 0xaf;
    program[1] = 0xc4;
    program[2] = 0x00;
    program[3] = 0x02;
    program[4] = 0xda;
    program[5] = 0x00;
    program[6] = 0x02;
    program[7] = 0xc0;
    program[8] = 0xcc;
    program[9] = 0x20;
    program[10] = 0x01;
    program[11] = 0xd2;
    program[12] = 0x30;
    program[13] = 0x01;
    program[0x20] = 0xc8;
    let mut m = machine_with(&program);
    m.emulate().unwrap();
    assert_eq!(m.emulate(), Ok(3));
    assert_eq!(m.emulate(), Ok(3));
    assert_eq!(m.emulate(), Ok(2));
    assert_eq!(m.cpu.regs.pc, 0x0108);
    assert_eq!(m.emulate(), Ok(6));
    assert_eq!(m.cpu.regs.pc, 0x0120);
    assert_eq!(m.emulate(), Ok(5));
    assert_eq!(m.cpu.regs.pc, 0x010b);
    assert_eq!(m.emulate(), Ok(4));
    assert_eq!(m.cpu.regs.pc, 0x0130);
}
