use rustboy::cartridge::Cartridge;
use rustboy::cpu::CpuError;
use rustboy::machine::Machine;

/// Machine cycles of each opcode when its condition, if it has one, does
/// not hold; 0 marks the bytes that are no instruction and the prefix.
const CYCLES: [u32; 256] = [
    1, 3, 2, 2, 1, 1, 2, 1, 5, 2, 2, 2, 1, 1, 2, 1, // 0x
    1, 3, 2, 2, 1, 1, 2, 1, 3, 2, 2, 2, 1, 1, 2, 1, // 1x
    2, 3, 2, 2, 1, 1, 2, 1, 2, 2, 2, 2, 1, 1, 2, 1, // 2x
    2, 3, 2, 2, 3, 3, 3, 1, 2, 2, 2, 2, 1, 1, 2, 1, // 3x
    1, 1, 1, 1, 1, 1, 2, 1, 1, 1, 1, 1, 1, 1, 2, 1, // 4x
    1, 1, 1, 1, 1, 1, 2, 1, 1, 1, 1, 1, 1, 1, 2, 1, // 5x
    1, 1, 1, 1, 1, 1, 2, 1, 1, 1, 1, 1, 1, 1, 2, 1, // 6x
    2, 2, 2, 2, 2, 2, 1, 2, 1, 1, 1, 1, 1, 1, 2, 1, // 7x
    1, 1, 1, 1, 1, 1, 2, 1, 1, 1, 1, 1, 1, 1, 2, 1, // 8x
    1, 1, 1, 1, 1, 1, 2, 1, 1, 1, 1, 1, 1, 1, 2, 1, // 9x
    1, 1, 1, 1, 1, 1, 2, 1, 1, 1, 1, 1, 1, 1, 2, 1, // ax
    1, 1, 1, 1, 1, 1, 2, 1, 1, 1, 1, 1, 1, 1, 2, 1, // bx
    2, 3, 3, 4, 3, 4, 2, 4, 2, 4, 3, 0, 3, 6, 2, 4, // cx
    2, 3, 3, 0, 3, 4, 2, 4, 2, 4, 3, 0, 3, 0, 2, 4, // dx
    3, 3, 2, 0, 0, 4, 2, 4, 4, 1, 4, 0, 0, 0, 2, 4, // ex
    3, 3, 2, 1, 0, 4, 2, 4, 3, 2, 4, 1, 0, 0, 2, 4, // fx
];

/// The length of each instruction in bytes.
fn length(opcode: u8) -> u16 {
    match opcode {
        0x01 | 0x11 | 0x21 | 0x31 | 0x08 | 0xc2 | 0xc3 | 0xca | 0xd2 | 0xda | 0xc4 | 0xcc | 0xcd | 0xd4
        | 0xdc | 0xea | 0xfa => 3,
        0x06 | 0x0e | 0x16 | 0x1e | 0x26 | 0x2e | 0x36 | 0x3e | 0x10 | 0x18 | 0x20 | 0x28 | 0x30 | 0x38
        | 0xc6 | 0xce | 0xd6 | 0xde | 0xe6 | 0xee | 0xf6 | 0xfe | 0xe0 | 0xf0 | 0xe8 | 0xf8 | 0xcb => 2,
        _ => 1,
    }
}

/// The condition of a conditional instruction: 0 NZ, 1 Z, 2 NC, 3 C.
fn condition(opcode: u8) -> Option<u8> {
    match opcode {
        0x20 | 0x28 | 0x30 | 0x38 => Some((opcode >> 3) & 3),
        0xc0 | 0xc8 | 0xd0 | 0xd8 | 0xc2 | 0xca | 0xd2 | 0xda | 0xc4 | 0xcc | 0xd4 | 0xdc => Some((opcode >> 3) & 3),
        _ => None,
    }
}

/// The machine cycles of a conditional instruction whose condition holds.
fn taken_cycles(opcode: u8) -> u32 {
    match opcode & 0xc7 {
        0x00 => 3,
        0xc0 => 5,
        0xc2 => 4,
        _ => 6,
    }
}

fn machine_with(program: &[u8]) -> Machine {
    let mut rom = vec![0u8; 0x8000];
    for (i, byte) in program.iter().enumerate() {
        rom[0x100 + i] = *byte;
    }
    let mut m = Machine::new(Cartridge::new(rom).unwrap(), 0);
    m.cpu.regs.set_hl(0xc000);
    m.cpu.regs.set_bc(0xc010);
    m.cpu.regs.set_de(0xc020);
    m
}

fn set_condition(m: &mut Machine, cc: u8, holds: bool) {
    match cc {
        0 => m.cpu.regs.flags.z = !holds,
        1 => m.cpu.regs.flags.z = holds,
        2 => m.cpu.regs.flags.c = !holds,
        _ => m.cpu.regs.flags.c = holds,
    }
}

fn is_defined(opcode: u8) -> bool {
    !matches!(opcode, 0xd3 | 0xdb | 0xdd | 0xe3 | 0xe4 | 0xeb | 0xec | 0xed | 0xf4 | 0xfc | 0xfd)
}

#[test]
fn every_opcode_takes_its_documented_cycles() {
    for opcode in 0..=255u8 {
        if opcode == 0xcb {
            continue;
        }
        let mut m = machine_with(&[opcode, 0x02, 0xc0]);
        if let Some(cc) = condition(opcode) {
            set_condition(&mut m, cc, false);
        }
        if !is_defined(opcode) {
            assert_eq!(CYCLES[opcode as usize], 0);
            assert_eq!(m.emulate(), Err(CpuError::UnimplementedOpcode(opcode, 0x0100)));
            continue;
        }
        assert_eq!(m.emulate(), Ok(CYCLES[opcode as usize]), "opcode {:#04x}", opcode);
        let jumps = matches!(opcode, 0x18 | 0xc3 | 0xe9 | 0xcd | 0xc9 | 0xd9 | 0x76) || opcode & 0xc7 == 0xc7;
        if !jumps {
            assert_eq!(m.cpu.regs.pc, 0x0100 + length(opcode), "opcode {:#04x}", opcode);
        }
    }
}

#[test]
fn conditional_instructions_cost_more_when_taken() {
    for opcode in 0..=255u8 {
        if let Some(cc) = condition(opcode) {
            let mut m = machine_with(&[opcode, 0x02, 0xc0]);
            set_condition(&mut m, cc, true);
            assert_eq!(m.emulate(), Ok(taken_cycles(opcode)), "opcode {:#04x}", opcode);
            assert_ne!(m.cpu.regs.pc, 0x0100 + length(opcode));
        }
    }
}

#[test]
fn every_extended_opcode_takes_its_documented_cycles() {
    for opcode in 0..=255u8 {
        let mut m = machine_with(&[0xcb, opcode]);
        let expected = if opcode & 7 != 6 {
            2
        } else if opcode & 0xc0 == 0x40 {
            3
        } else {
            4
        };
        assert_eq!(m.emulate(), Ok(expected), "opcode cb {:#04x}", opcode);
        assert_eq!(m.cpu.regs.pc, 0x0102);
    }
}

#[test]
fn loads_between_registers_copy_the_source() {
    // operands in opcode order: B, C, D, E, H, L, (HL), A
    for opcode in 0x40..=0x7fu8 {
        if opcode == 0x76 {
            continue;
        }
        let mut m = machine_with(&[opcode]);
        m.cpu.regs.a = 0xa0;
        m.cpu.regs.b = 0xb1;
        m.cpu.regs.c = 0xc2;
        m.cpu.regs.d = 0xd3;
        m.cpu.regs.e = 0xe4;
        m.cpu.regs.set_hl(0xc0f5);
        m.cpu.interconnect.write_byte(0xc0f5, 0x66);
        let source = [0xb1, 0xc2, 0xd3, 0xe4, 0xc0, 0xf5, 0x66, 0xa0][(opcode & 7) as usize];
        m.emulate().unwrap();
        let r = m.cpu.regs;
        let target = match (opcode >> 3) & 7 {
            0 => r.b,
            1 => r.c,
            2 => r.d,
            3 => r.e,
            4 => r.h,
            5 => r.l,
            6 => m.cpu.interconnect.read_byte(0xc0f5),
            _ => r.a,
        };
        assert_eq!(target, source, "opcode {:#04x}", opcode);
    }
}

#[test]
fn arithmetic_on_every_operand() {
    // ADD, ADC, SUB, SBC, AND, XOR, OR, CP with A = 0x3c, operand 0x12, carry set
    let results = [0x4eu8, 0x4f, 0x2a, 0x29, 0x10, 0x2e, 0x3e, 0x3c];
    for opcode in 0x80..=0xbfu8 {
        let operand = opcode & 7;
        if operand == 7 {
            continue;
        }
        let mut m = machine_with(&[opcode]);
        m.cpu.regs.a = 0x3c;
        m.cpu.regs.b = 0x12;
        m.cpu.regs.c = 0x12;
        m.cpu.regs.d = 0x12;
        m.cpu.regs.e = 0x12;
        m.cpu.regs.set_hl(0x1212);
        if operand == 6 {
            m.cpu.regs.set_hl(0xc000);
            m.cpu.interconnect.write_byte(0xc000, 0x12);
        }
        m.cpu.regs.flags.c = true;
        m.emulate().unwrap();
        assert_eq!(m.cpu.regs.a, results[((opcode >> 3) & 7) as usize], "opcode {:#04x}", opcode);
    }
}
