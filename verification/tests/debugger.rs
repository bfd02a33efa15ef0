use rustboy::cartridge::Cartridge;
use rustboy::cartridge::CartridgeError;
use rustboy::config::cartridge_exit_code;
use rustboy::config::Config;
use rustboy::config::EXIT_LOAD_ERROR;
use rustboy::config::EXIT_OK;
use rustboy::config::EXIT_UNSUPPORTED_MODEL;
use rustboy::cpu::CpuError;
use rustboy::debugger::command::Command;
use rustboy::debugger::command::CommandError;
use rustboy::debugger::Debugger;
use rustboy::machine::Machine;

fn debugged(program: &[u8]) -> Debugger {
    let mut rom = vec![0u8; 0x8000];
    for (i, byte) in program.iter().enumerate() {
        rom[0x100 + i] = *byte;
    }
    Debugger::new(Machine::new(Cartridge::new(rom).unwrap(), 44100))
}

#[test]
fn command_lines() {
    assert_eq!(Command::parse(b"step"), Ok(Command::Step(1)));
    assert_eq!(Command::parse(b"s"), Ok(Command::Step(1)));
    assert_eq!(Command::parse(b"step 10"), Ok(Command::Step(10)));
    assert_eq!(Command::parse(b"s 3"), Ok(Command::Step(3)));
    assert_eq!(Command::parse(b"s\t7"), Ok(Command::Step(7)));
    assert_eq!(Command::parse(b"step  \t 0042"), Ok(Command::Step(42)));
    assert_eq!(Command::parse(b"step 0"), Ok(Command::Step(0)));
    assert_eq!(Command::parse(b"exit"), Ok(Command::Exit));
    assert_eq!(Command::parse(b"quit"), Ok(Command::Exit));
    assert_eq!(Command::parse(b"e"), Ok(Command::Exit));
    assert_eq!(Command::parse(b"q"), Ok(Command::Exit));
    assert_eq!(Command::parse(b""), Ok(Command::Repeat));
    assert_eq!(Command::parse_str("step 5"), Ok(Command::Step(5)));
    assert_eq!(Command::parse_str(""), Ok(Command::Repeat));
}

#[test]
fn lines_that_are_no_commands() {
    for line in [
        &b"x"[..], b" ", b"s5", b"stepx", b"step ", b"step x", b"step 1 ", b"step 1x", b"step -1", b" step", b"ste",
        b"st", b"ex", b"exi", b"exit ", b"exit 1", b"quit!", b"qu", b"eq", b"Step", b"step\n",
        b"step 99999999999999999999999999999999999999", b"help",
    ] {
        assert_eq!(Command::parse(line), Err(CommandError::Unrecognized));
    }
}

#[test]
fn step_count_up_to_the_machine_word() {
    let max = format!("s {}", usize::MAX);
    assert_eq!(Command::parse(max.as_bytes()), Ok(Command::Step(usize::MAX)));
    let over = format!("s {}0", usize::MAX);
    assert_eq!(Command::parse(over.as_bytes()), Err(CommandError::Unrecognized));
}

#[test]
fn debugger_repeats_the_last_command() {
    let mut d = debugged(&[0x00]);
    assert_eq!(d.command(b""), Err(CommandError::NoLastCommand));
    assert_eq!(d.command(b"step 3"), Ok(Command::Step(3)));
    assert_eq!(d.last_command, Some(Command::Step(3)));
    assert_eq!(d.command(b""), Ok(Command::Step(3)));
    assert_eq!(d.command(b""), Ok(Command::Step(3)));
    assert_eq!(d.command(b"bogus"), Err(CommandError::Unrecognized));
    assert_eq!(d.last_command, None);
    assert_eq!(d.command(b""), Err(CommandError::NoLastCommand));
    assert_eq!(d.command(b"q"), Ok(Command::Exit));
    assert_eq!(d.command(b""), Ok(Command::Exit));
}

#[test]
fn debugger_single_step_shows_the_state_before() {
    // LD HL,0xc000; LD (HL),0x5a; HALT
    let mut d = debugged(&[0x21, 0x00, 0xc0, 0x36, 0x5a, 0x76]);
    let first = d.step().unwrap();
    assert_eq!(first.regs.pc, 0x0100);
    assert_eq!(first.at_pc, (0x21, 0x00, 0xc0));
    assert_eq!(first.regs.sp, 0xfffe);
    assert_eq!(first.at_sp.0, 0xca);
    assert!(!first.halted && !first.ime);
    let second = d.step().unwrap();
    assert_eq!(second.regs.pc, 0x0103);
    assert_eq!(second.regs.hl(), 0xc000);
    assert_eq!(second.at_hl, (0xca, 0xca));
    let third = d.step().unwrap();
    assert_eq!(third.at_hl, (0x5a, 0xca));
    assert_eq!(third.at_pc.0, 0x76);
    let fourth = d.snapshot();
    assert!(fourth.halted);
    assert_eq!(fourth.regs.pc, 0x0105);
    assert_eq!(d.snapshot(), d.step().unwrap());
}

#[test]
fn debugger_step_reports_what_stops_the_processor() {
    let mut d = debugged(&[0xed]);
    assert_eq!(d.step(), Err(CpuError::UnimplementedOpcode(0xed, 0x0100)));
}

#[test]
fn settings_from_the_command_line() {
    let c = Config::from_counts(0, 0, "game.gb".to_string());
    assert!(!c.is_headless && !c.is_debug);
    assert_eq!(c.rom_name, "game.gb");
    let c = Config::from_counts(1, 0, "a".to_string());
    assert!(c.is_headless && !c.is_debug);
    let c = Config::from_counts(0, 3, "b".to_string());
    assert!(!c.is_headless && c.is_debug);
    assert_eq!((EXIT_OK, EXIT_LOAD_ERROR, EXIT_UNSUPPORTED_MODEL), (0, 1, 2));
}

#[test]
fn exit_status_of_a_refused_image() {
    assert_eq!(cartridge_exit_code(CartridgeError::BadImage), 1);
    assert_eq!(cartridge_exit_code(CartridgeError::UnsupportedModel(0x13)), 2);
}
