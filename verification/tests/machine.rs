use rustboy::cartridge::Cartridge;
use rustboy::cpu::Cpu;
use rustboy::cpu::CpuError;
use rustboy::gpu::types::Color;
use rustboy::gpu::Gpu;
use rustboy::io::Interconnect;
use rustboy::machine::Machine;
use rustboy::machine::FRAME_BUDGET;

fn machine_with(program: &[u8]) -> Machine {
    let mut rom = vec![0u8; 0x8000];
    for (i, byte) in program.iter().enumerate() {
        rom[0x100 + i] = *byte;
    }
    Machine::new(Cartridge::new(rom).unwrap(), 44100)
}

#[test]
fn reported_cycles_are_applied_cycles() {
    // a loop: INC A; PUSH AF; POP BC; CALL 0x0110; JR -8 / at 0x0110: RET
    let mut program = vec![0u8; 0x20];
    program[..8].copy_from_slice(&[0x3c, 0xf5, 0xc1, 0xcd, 0x10, 0x01, 0x18, 0xf8]);
    program[0x10] = 0xc9;
    let mut m = machine_with(&program);
    let mut total: u64 = 0;
    for _ in 0..1200 {
        total += m.emulate().unwrap() as u64;
        assert_eq!(m.cycles_reported(), total);
        assert_eq!(m.cycles_applied(), total);
    }
    assert_eq!(total, 200 * (1 + 4 + 3 + 6 + 4 + 3));
    // the divider saw every one of them
    assert_eq!(m.cpu.interconnect.read_byte(0xff04), ((total * 4 / 256) % 256) as u8);
}

#[test]
fn failed_step_applies_nothing() {
    let mut m = machine_with(&[0x00, 0xfd]);
    m.emulate().unwrap();
    assert_eq!(m.emulate(), Err(CpuError::UnimplementedOpcode(0xfd, 0x0101)));
    assert_eq!(m.cycles_reported(), 1);
    assert_eq!(m.cycles_applied(), 1);
    assert_eq!(m.run_until_frame(), Err(CpuError::UnimplementedOpcode(0xfd, 0x0101)));
    assert_eq!(m.run_frame().err(), Some(CpuError::UnimplementedOpcode(0xfd, 0x0101)));
}

#[test]
fn run_frame_stops_at_the_end_of_a_frame() {
    // LD A,0x91; LDH (0x40),A; JR -2
    let mut m = machine_with(&[0x3e, 0x91, 0xe0, 0x40, 0x18, 0xfe]);
    assert_eq!(m.run_until_frame(), Ok(true));
    assert_eq!(m.cpu.interconnect.read_byte(0xff44), 144);
    let first = m.cycles_applied();
    assert!(first >= 144 * 114 && first < 144 * 114 + 16);
    assert_eq!(m.run_until_frame(), Ok(true));
    let second = m.cycles_applied() - first;
    assert!(second >= 154 * 114 - 3 && second <= 154 * 114 + 3);
    assert_eq!(m.screen_buffer().len(), 160 * 144);
    assert!(m.screen_buffer().iter().all(|c| *c == Color::On));
    let frame = m.run_frame().unwrap();
    assert_eq!(frame.len(), 160 * 144);
    assert!(frame.iter().all(|c| *c == Color::On));
    assert_eq!(m.cpu.interconnect.read_byte(0xff44), 144);
}

#[test]
fn run_frame_gives_up_while_the_display_is_off() {
    // JR -2
    let mut m = machine_with(&[0x18, 0xfe]);
    assert_eq!(m.run_until_frame(), Ok(false));
    assert!(m.cycles_applied() >= FRAME_BUDGET as u64);
    assert!(m.cycles_applied() < FRAME_BUDGET as u64 + 3);
    assert_eq!(m.cpu.interconnect.read_byte(0xff44), 0);
    assert!(m.run_frame().unwrap().iter().all(|c| *c == Color::Off));
}

#[test]
fn machine_with_boot_program_starts_at_zero() {
    let mut boot = vec![0u8; 256];
    // JP 0x00fc ... at 0x00fc: LD A,0x01; LDH (0x50),A
    boot[..3].copy_from_slice(&[0xc3, 0xfc, 0x00]);
    boot[0xfc..].copy_from_slice(&[0x3e, 0x01, 0xe0, 0x50]);
    let mut rom = vec![0u8; 0x8000];
    rom[0] = 0x76;
    rom[0x100] = 0x3c;
    let mut m = Machine::with_bootrom(Cartridge::new(rom).unwrap(), 44100, boot);
    assert_eq!(m.cpu.regs.pc, 0);
    assert_eq!(m.cpu.regs.af(), 0);
    assert_eq!(m.cpu.interconnect.read_byte(0x0000), 0xc3);
    m.emulate().unwrap();
    assert_eq!(m.cpu.regs.pc, 0x00fc);
    m.emulate().unwrap();
    assert_eq!(m.cpu.interconnect.read_byte(0x0000), 0xc3);
    m.emulate().unwrap();
    assert_eq!(m.cpu.interconnect.read_byte(0x0000), 0x76);
    assert_eq!(m.cpu.regs.pc, 0x0100);
    m.emulate().unwrap();
    assert_eq!(m.cpu.regs.a, 0x02);
}

#[test]
fn processor_for_the_colour_console() {
    let rom = vec![0u8; 0x8000];
    let bus = Interconnect::new(Cartridge::new(rom).unwrap(), Gpu::new(), 44100);
    let mut cpu = Cpu::new_gbc(bus);
    assert_eq!(cpu.regs.a, 0x11);
    assert_eq!(cpu.regs.pc, 0x0100);
    assert!(!cpu.ime && !cpu.halted);
    assert_eq!(cpu.step(), Ok(1));
    assert_eq!(cpu.regs.pc, 0x0101);
}

#[test]
fn names_at_the_crate_root() {
    let rom = vec![0u8; 0x8000];
    let mut m: rustboy::Machine = rustboy::Machine::new(Cartridge::new(rom).unwrap(), 0);
    let frame: &rustboy::ScreenBuffer = m.screen_buffer();
    assert_eq!(frame[0], rustboy::Color::Off);
    assert!(!m.take_frame_ready());
    let c = rustboy::Config::from_counts(1, 1, String::new());
    assert!(c.is_headless && c.is_debug);
}

#[test]
fn interconnect_drops_requests_raised_before() {
    let mut gpu = Gpu::new();
    gpu.write_byte(0xff40, 0x80);
    gpu.do_cycle(144 * 114);
    let rom = vec![0u8; 0x8000];
    let mut bus = Interconnect::new(Cartridge::new(rom).unwrap(), gpu, 0);
    assert_eq!(bus.read_byte(0xff44), 144);
    bus.do_cycle(1);
    assert_eq!(bus.read_byte(0xff0f) & 0x1f, 0x00);
}

#[test]
fn processor_runs_a_number_of_instructions() {
    // INC A; JR -3
    let mut rom = vec![0u8; 0x8000];
    rom[0x100..0x103].copy_from_slice(&[0x3c, 0x18, 0xfd]);
    let bus = Interconnect::new(Cartridge::new(rom).unwrap(), Gpu::new(), 0);
    let mut cpu = Cpu::new(bus);
    assert_eq!(cpu.run(0), Ok(0));
    assert_eq!(cpu.regs.pc, 0x0100);
    assert_eq!(cpu.run(10), Ok(5 * (1 + 3)));
    assert_eq!(cpu.regs.a, 0x01 + 5);
    // the peripherals got the time
    assert_eq!(cpu.interconnect.read_byte(0xff04), 0);
    assert_eq!(cpu.run(100), Ok(50 * (1 + 3)));
    assert_eq!(cpu.interconnect.read_byte(0xff04), ((220 * 4) / 256) as u8);
}

#[test]
fn processor_run_ends_at_a_byte_that_is_no_instruction() {
    let mut rom = vec![0u8; 0x8000];
    rom[0x102] = 0xe3;
    let bus = Interconnect::new(Cartridge::new(rom).unwrap(), Gpu::new(), 0);
    let mut cpu = Cpu::new(bus);
    assert_eq!(cpu.run(10), Err(CpuError::UnimplementedOpcode(0xe3, 0x0102)));
    assert_eq!(cpu.regs.pc, 0x0102);
}
