//! The processor: fetch, decode and execute, interrupts included.

use vstd::prelude::*;
use crate::cpu::alu::spec_add16;
use crate::cpu::alu::spec_add16imm;
use crate::cpu::alu::spec_bit_flags;
use crate::cpu::alu::spec_daa;
use crate::cpu::alu::spec_dec;
use crate::cpu::alu::spec_inc;
use crate::cpu::alu::spec_rotate;
use crate::cpu::alu::spec_signed;
use crate::cpu::registers::high_byte;
use crate::cpu::registers::low_byte;
use crate::cpu::registers::Flags;
use crate::cpu::registers::Registers;
use crate::io::irq::spec_first_pending;
use crate::io::irq::Interrupt;
use crate::io::Interconnect;
use crate::io::InterconnectView;

pub mod alu;
pub mod laws;
pub mod registers;

verus! {

/// Machine cycles that serving an interrupt takes.
pub const INTERRUPT_CYCLES: u32 = 5;

/// What stops the processor.
#[derive(Debug, Copy, Clone, PartialEq, Eq, Structural)]
pub enum CpuError {
    /// The byte fetched as an opcode is none: the byte, and its address.
    UnimplementedOpcode(u8, u16),
}

/// The processor and all it can reach, as mathematics.
pub struct CpuView {
    /// The registers.
    pub regs: Registers,
    /// Whether the processor waits for an interrupt.
    pub halted: bool,
    /// The interrupt master enable.
    pub ime: bool,
    /// Counts down to the moment a DI takes effect; 0 when none is due.
    pub setdi: u8,
    /// Counts down to the moment an EI takes effect; 0 when none is due.
    pub setei: u8,
    /// The interconnect.
    pub bus: InterconnectView,
}

/// A processor state and the machine cycles spent to reach it.
pub struct Step {
    /// The state after the instruction.
    pub cpu: CpuView,
    /// The machine cycles that the instruction took.
    pub cycles: u32,
}

/// What a step of the processor gives: the state after it, and the
/// machine cycles it took or the reason it could not be taken.
pub struct StepOutcome {
    /// The state after the step.
    pub cpu: CpuView,
    /// The machine cycles that the step took, or why it was not taken.
    pub result: Result<u32, CpuError>,
}

/// `x` on 16 bits.
pub open spec fn wrap16(x: int) -> u16 {
    (x % 65536) as u16
}

/// Whether `opcode` is an instruction. Eleven bytes are none.
pub open spec fn spec_defined(opcode: u8) -> bool {
    !(opcode == 0xd3 || opcode == 0xdb || opcode == 0xdd || opcode == 0xe3 || opcode == 0xe4
        || opcode == 0xeb || opcode == 0xec || opcode == 0xed || opcode == 0xf4 || opcode == 0xfc
        || opcode == 0xfd)
}

impl CpuView {
    /// The invariant of the processor: that of its interconnect.
    pub open spec fn wf(self) -> bool {
        self.bus.wf()
    }

    /// The byte at the program counter.
    pub open spec fn spec_imm8(self) -> u8 {
        self.bus.spec_read(self.regs.pc)
    }

    /// The word at the program counter, low byte first.
    pub open spec fn spec_imm16(self) -> u16 {
        self.bus.spec_read_word(self.regs.pc)
    }

    /// The state with the program counter set.
    pub open spec fn spec_jump(self, pc: u16) -> CpuView {
        CpuView { regs: Registers { pc, ..self.regs }, ..self }
    }

    /// The state with the program counter moved on by `n`.
    pub open spec fn spec_skip(self, n: int) -> CpuView {
        self.spec_jump(wrap16(self.regs.pc + n))
    }

    /// The state with other registers.
    pub open spec fn spec_with_regs(self, regs: Registers) -> CpuView {
        CpuView { regs, ..self }
    }

    /// The state with other flags.
    pub open spec fn spec_with_flags(self, flags: Flags) -> CpuView {
        CpuView { regs: Registers { flags, ..self.regs }, ..self }
    }

    /// The state after `value` is written at `address`.
    pub open spec fn spec_store(self, address: u16, value: u8) -> CpuView {
        CpuView { bus: self.bus.spec_write(address, value), ..self }
    }

    /// The 8-bit operand numbered `index`: B, C, D, E, H, L, the byte at
    /// HL, A.
    #[verifier::opaque]
    pub open spec fn spec_r8(self, index: u8) -> u8 {
        if index == 0 {
            self.regs.b
        } else if index == 1 {
            self.regs.c
        } else if index == 2 {
            self.regs.d
        } else if index == 3 {
            self.regs.e
        } else if index == 4 {
            self.regs.h
        } else if index == 5 {
            self.regs.l
        } else if index == 6 {
            self.bus.spec_read(self.regs.spec_hl())
        } else {
            self.regs.a
        }
    }

    /// The state after `value` is stored in the 8-bit operand numbered
    /// `index`.
    #[verifier::opaque]
    pub open spec fn spec_set_r8(self, index: u8, value: u8) -> CpuView {
        if index == 0 {
            self.spec_with_regs(Registers { b: value, ..self.regs })
        } else if index == 1 {
            self.spec_with_regs(Registers { c: value, ..self.regs })
        } else if index == 2 {
            self.spec_with_regs(Registers { d: value, ..self.regs })
        } else if index == 3 {
            self.spec_with_regs(Registers { e: value, ..self.regs })
        } else if index == 4 {
            self.spec_with_regs(Registers { h: value, ..self.regs })
        } else if index == 5 {
            self.spec_with_regs(Registers { l: value, ..self.regs })
        } else if index == 6 {
            self.spec_store(self.regs.spec_hl(), value)
        } else {
            self.spec_with_regs(Registers { a: value, ..self.regs })
        }
    }

    /// The register pair numbered `index`: BC, DE, HL, SP.
    #[verifier::opaque]
    pub open spec fn spec_r16(self, index: u8) -> u16 {
        if index == 0 {
            self.regs.spec_bc()
        } else if index == 1 {
            self.regs.spec_de()
        } else if index == 2 {
            self.regs.spec_hl()
        } else {
            self.regs.sp
        }
    }

    /// The state after `value` is stored in the register pair numbered
    /// `index`: BC, DE, HL, SP.
    #[verifier::opaque]
    pub open spec fn spec_set_r16(self, index: u8, value: u16) -> CpuView {
        if index == 0 {
            self.spec_with_regs(self.regs.with_bc(value))
        } else if index == 1 {
            self.spec_with_regs(self.regs.with_de(value))
        } else if index == 2 {
            self.spec_with_regs(self.regs.with_hl(value))
        } else {
            self.spec_with_regs(Registers { sp: value, ..self.regs })
        }
    }

    /// The register pair that PUSH and POP number `index`: BC, DE, HL,
    /// AF.
    #[verifier::opaque]
    pub open spec fn spec_rp2(self, index: u8) -> u16 {
        if index == 3 {
            self.regs.spec_af()
        } else {
            self.spec_r16(index)
        }
    }

    /// The state after `value` is stored in the register pair that PUSH
    /// and POP number `index`. AF loses the low nibble.
    #[verifier::opaque]
    pub open spec fn spec_set_rp2(self, index: u8, value: u16) -> CpuView {
        if index == 3 {
            self.spec_with_regs(self.regs.with_af(value))
        } else {
            self.spec_set_r16(index, value)
        }
    }

    /// The condition numbered `cc`: NZ, Z, NC, C.
    #[verifier::opaque]
    pub open spec fn spec_condition(self, cc: u8) -> bool {
        if cc == 0 {
            !self.regs.flags.z
        } else if cc == 1 {
            self.regs.flags.z
        } else if cc == 2 {
            !self.regs.flags.c
        } else {
            self.regs.flags.c
        }
    }

    /// The state after a push: SP goes down by two, the high byte is
    /// written at SP + 1, then the low byte at SP.
    #[verifier::opaque]
    pub open spec fn spec_push(self, value: u16) -> CpuView {
        let sp = wrap16(self.regs.sp - 2);
        CpuView {
            regs: Registers { sp, ..self.regs },
            bus: self.bus.spec_write(wrap16(sp + 1), high_byte(value)).spec_write(
                sp,
                low_byte(value),
            ),
            ..self
        }
    }

    /// The word that a pop yields: the low byte at SP, the high byte at
    /// SP + 1.
    pub open spec fn spec_pop_value(self) -> u16 {
        self.bus.spec_read_word(self.regs.sp)
    }

    /// The state after a pop: SP goes up by two.
    pub open spec fn spec_pop(self) -> CpuView {
        self.spec_with_regs(Registers { sp: wrap16(self.regs.sp + 2), ..self.regs })
    }

    /// The state after a relative jump: the displacement at the program
    /// counter is added to the address that follows it.
    #[verifier::opaque]
    pub open spec fn spec_jr(self) -> CpuView {
        self.spec_jump(wrap16(self.regs.pc + 1 + spec_signed(self.spec_imm8())))
    }

    /// The state after a call of `target`: the program counter is pushed.
    #[verifier::opaque]
    pub open spec fn spec_call(self, target: u16) -> CpuView {
        self.spec_push(self.regs.pc).spec_jump(target)
    }

    /// The state after a return: the program counter is popped.
    #[verifier::opaque]
    pub open spec fn spec_ret(self) -> CpuView {
        self.spec_pop().spec_jump(self.spec_pop_value())
    }

    /// The opcodes `0x00..=0x3f` whose low three bits are 0: NOP,
    /// LD (nn),SP, STOP and the relative jumps.
    #[verifier::opaque]
    pub open spec fn spec_block0_control(self, y: u8) -> Step {
        if y == 0 {
            Step { cpu: self, cycles: 1 }
        } else if y == 1 {
            let address = self.spec_imm16();
            Step {
                cpu: CpuView {
                    bus: self.bus.spec_write_word(address, self.regs.sp),
                    ..self.spec_skip(2)
                },
                cycles: 5,
            }
        } else if y == 2 {
            Step {
                cpu: CpuView { bus: self.bus.spec_switch_speed(), ..self.spec_skip(1) },
                cycles: 1,
            }
        } else if y == 3 || self.spec_condition((y - 4) as u8) {
            Step { cpu: self.spec_jr(), cycles: 3 }
        } else {
            Step { cpu: self.spec_skip(1), cycles: 2 }
        }
    }

    /// The loads between A and the byte at BC, DE, HL+ or HL-; `q` says
    /// whether A is loaded.
    #[verifier::opaque]
    pub open spec fn spec_block0_indirect(self, p: u8, q: u8) -> Step {
        let address = if p == 0 {
            self.regs.spec_bc()
        } else if p == 1 {
            self.regs.spec_de()
        } else {
            self.regs.spec_hl()
        };
        let moved = if p == 2 {
            self.spec_with_regs(self.regs.with_hl(wrap16(address + 1)))
        } else if p == 3 {
            self.spec_with_regs(self.regs.with_hl(wrap16(address - 1)))
        } else {
            self
        };
        if q == 0 {
            Step { cpu: moved.spec_store(address, self.regs.a), cycles: 2 }
        } else {
            Step {
                cpu: moved.spec_with_regs(Registers { a: self.bus.spec_read(address), ..moved.regs }),
                cycles: 2,
            }
        }
    }

    /// The operations on the accumulator alone: RLCA, RRCA, RLA, RRA
    /// (which clear Z), DAA, CPL, SCF, CCF.
    #[verifier::opaque]
    pub open spec fn spec_block0_accumulator(self, y: u8) -> Step {
        let r = self.regs;
        let regs = if y < 4 {
            let rotated = spec_rotate(y, r.a, r.flags);
            Registers { a: rotated.value, flags: Flags { z: false, ..rotated.flags }, ..r }
        } else if y == 4 {
            r.with_result(spec_daa(r.a, r.flags))
        } else if y == 5 {
            Registers { a: (255 - r.a) as u8, flags: Flags { n: true, h: true, ..r.flags }, ..r }
        } else if y == 6 {
            Registers { flags: Flags { n: false, h: false, c: true, ..r.flags }, ..r }
        } else {
            Registers { flags: Flags { n: false, h: false, c: !r.flags.c, ..r.flags }, ..r }
        };
        Step { cpu: self.spec_with_regs(regs), cycles: 1 }
    }

    /// The opcodes `0x00..=0x3f`.
    #[verifier::opaque]
    pub open spec fn spec_block0(self, opcode: u8) -> Step {
        let y = (opcode / 8) % 8;
        let z = opcode % 8;
        let p = y / 2;
        let q = y % 2;
        if z == 0 {
            self.spec_block0_control(y)
        } else if z == 1 {
            if q == 0 {
                Step { cpu: self.spec_skip(2).spec_set_r16(p, self.spec_imm16()), cycles: 3 }
            } else {
                let sum = spec_add16(self.regs.spec_hl(), self.spec_r16(p), self.regs.flags);
                Step {
                    cpu: self.spec_with_regs(
                        Registers { flags: sum.1, ..self.regs.with_hl(sum.0) },
                    ),
                    cycles: 2,
                }
            }
        } else if z == 2 {
            self.spec_block0_indirect(p, q)
        } else if z == 3 {
            Step {
                cpu: self.spec_set_r16(
                    p,
                    wrap16(self.spec_r16(p) + (if q == 0 { 1int } else { -1int })),
                ),
                cycles: 2,
            }
        } else if z == 4 || z == 5 {
            let result = if z == 4 {
                spec_inc(self.spec_r8(y), self.regs.flags)
            } else {
                spec_dec(self.spec_r8(y), self.regs.flags)
            };
            Step {
                cpu: self.spec_with_flags(result.flags).spec_set_r8(y, result.value),
                cycles: if y == 6 { 3 } else { 1 },
            }
        } else if z == 6 {
            Step {
                cpu: self.spec_skip(1).spec_set_r8(y, self.spec_imm8()),
                cycles: if y == 6 { 3 } else { 2 },
            }
        } else {
            self.spec_block0_accumulator(y)
        }
    }

    /// The opcodes `0x40..=0x7f`: the loads between 8-bit operands, and
    /// HALT in the place of a load of the byte at HL into itself. A halted
    /// processor keeps its program counter on the HALT.
    #[verifier::opaque]
    pub open spec fn spec_block1(self, opcode: u8) -> Step {
        let y = (opcode / 8) % 8;
        let z = opcode % 8;
        if opcode == 0x76 {
            Step { cpu: CpuView { halted: true, ..self.spec_skip(-1) }, cycles: 1 }
        } else {
            Step {
                cpu: self.spec_set_r8(y, self.spec_r8(z)),
                cycles: if y == 6 || z == 6 { 2 } else { 1 },
            }
        }
    }

    /// The opcodes `0x80..=0xbf`: the eight operations on the accumulator
    /// with an 8-bit operand.
    #[verifier::opaque]
    pub open spec fn spec_block2(self, opcode: u8) -> Step {
        let y = (opcode / 8) % 8;
        let z = opcode % 8;
        Step {
            cpu: self.spec_with_regs(self.regs.spec_alu(y, self.spec_r8(z))),
            cycles: if z == 6 { 2 } else { 1 },
        }
    }

    /// The opcodes from `0xc0` whose low three bits are 0: the
    /// conditional returns, the loads through the high page, and the two
    /// additions of a displacement to SP.
    #[verifier::opaque]
    pub open spec fn spec_block3_misc(self, y: u8) -> Step {
        let n = self.spec_imm8();
        if y < 4 {
            if self.spec_condition(y) {
                Step { cpu: self.spec_ret(), cycles: 5 }
            } else {
                Step { cpu: self, cycles: 2 }
            }
        } else if y == 4 {
            Step { cpu: self.spec_skip(1).spec_store((0xff00 + n) as u16, self.regs.a), cycles: 3 }
        } else if y == 5 {
            let sum = spec_add16imm(self.regs.sp, n);
            Step {
                cpu: self.spec_with_regs(Registers { sp: sum.0, flags: sum.1, ..self.regs }).spec_skip(
                    1,
                ),
                cycles: 4,
            }
        } else if y == 6 {
            Step {
                cpu: self.spec_with_regs(
                    Registers { a: self.bus.spec_read((0xff00 + n) as u16), ..self.regs },
                ).spec_skip(1),
                cycles: 3,
            }
        } else {
            let sum = spec_add16imm(self.regs.sp, n);
            Step {
                cpu: self.spec_with_regs(
                    Registers { flags: sum.1, ..self.regs.with_hl(sum.0) },
                ).spec_skip(1),
                cycles: 3,
            }
        }
    }

    /// The opcodes from `0xc0` whose low three bits are 1: POP, RET,
    /// RETI, JP HL, LD SP,HL.
    #[verifier::opaque]
    pub open spec fn spec_block3_pop(self, p: u8, q: u8) -> Step {
        if q == 0 {
            Step { cpu: self.spec_pop().spec_set_rp2(p, self.spec_pop_value()), cycles: 3 }
        } else if p == 0 {
            Step { cpu: self.spec_ret(), cycles: 4 }
        } else if p == 1 {
            Step { cpu: CpuView { setei: 1, ..self.spec_ret() }, cycles: 4 }
        } else if p == 2 {
            Step { cpu: self.spec_jump(self.regs.spec_hl()), cycles: 1 }
        } else {
            Step {
                cpu: self.spec_with_regs(Registers { sp: self.regs.spec_hl(), ..self.regs }),
                cycles: 2,
            }
        }
    }

    /// The opcodes from `0xc0` whose low three bits are 2: the
    /// conditional jumps, and the loads between A and the byte at
    /// `0xff00 + C` or at an address given in full.
    #[verifier::opaque]
    pub open spec fn spec_block3_jump(self, y: u8) -> Step {
        if y < 4 {
            if self.spec_condition(y) {
                Step { cpu: self.spec_jump(self.spec_imm16()), cycles: 4 }
            } else {
                Step { cpu: self.spec_skip(2), cycles: 3 }
            }
        } else if y == 4 {
            Step { cpu: self.spec_store((0xff00 + self.regs.c) as u16, self.regs.a), cycles: 2 }
        } else if y == 5 {
            Step { cpu: self.spec_skip(2).spec_store(self.spec_imm16(), self.regs.a), cycles: 4 }
        } else if y == 6 {
            Step {
                cpu: self.spec_with_regs(
                    Registers { a: self.bus.spec_read((0xff00 + self.regs.c) as u16), ..self.regs },
                ),
                cycles: 2,
            }
        } else {
            Step {
                cpu: self.spec_with_regs(
                    Registers { a: self.bus.spec_read(self.spec_imm16()), ..self.regs },
                ).spec_skip(2),
                cycles: 4,
            }
        }
    }

    /// The extended opcodes, which follow the byte `0xcb`: rotations and
    /// shifts, BIT, RES and SET on an 8-bit operand.
    #[verifier::opaque]
    pub open spec fn spec_cb(self) -> Step {
        let opcode = self.spec_imm8();
        let fetched = self.spec_skip(1);
        let x = opcode / 64;
        let y = (opcode / 8) % 8;
        let z = opcode % 8;
        let value = fetched.spec_r8(z);
        if x == 0 {
            let rotated = spec_rotate(y, value, fetched.regs.flags);
            Step {
                cpu: fetched.spec_with_flags(rotated.flags).spec_set_r8(z, rotated.value),
                cycles: if z == 6 { 4 } else { 2 },
            }
        } else if x == 1 {
            Step {
                cpu: fetched.spec_with_flags(spec_bit_flags(y, value, fetched.regs.flags)),
                cycles: if z == 6 { 3 } else { 2 },
            }
        } else if x == 2 {
            Step {
                cpu: fetched.spec_set_r8(z, value & !(1u8 << y)),
                cycles: if z == 6 { 4 } else { 2 },
            }
        } else {
            Step {
                cpu: fetched.spec_set_r8(z, value | (1u8 << y)),
                cycles: if z == 6 { 4 } else { 2 },
            }
        }
    }

    /// The opcodes `0xc0..=0xff` that are instructions.
    #[verifier::opaque]
    pub open spec fn spec_block3(self, opcode: u8) -> Step {
        let y = (opcode / 8) % 8;
        let z = opcode % 8;
        let p = y / 2;
        let q = y % 2;
        if z == 0 {
            self.spec_block3_misc(y)
        } else if z == 1 {
            self.spec_block3_pop(p, q)
        } else if z == 2 {
            self.spec_block3_jump(y)
        } else if z == 3 {
            if y == 0 {
                Step { cpu: self.spec_jump(self.spec_imm16()), cycles: 4 }
            } else if y == 1 {
                self.spec_cb()
            } else if y == 6 {
                Step { cpu: CpuView { setdi: 2, ..self }, cycles: 1 }
            } else {
                Step { cpu: CpuView { setei: 2, ..self }, cycles: 1 }
            }
        } else if z == 4 {
            if self.spec_condition(y) {
                Step { cpu: self.spec_skip(2).spec_call(self.spec_imm16()), cycles: 6 }
            } else {
                Step { cpu: self.spec_skip(2), cycles: 3 }
            }
        } else if z == 5 {
            if q == 0 {
                Step { cpu: self.spec_push(self.spec_rp2(p)), cycles: 4 }
            } else {
                Step { cpu: self.spec_skip(2).spec_call(self.spec_imm16()), cycles: 6 }
            }
        } else if z == 6 {
            let fetched = self.spec_skip(1);
            Step {
                cpu: fetched.spec_with_regs(fetched.regs.spec_alu(y, self.spec_imm8())),
                cycles: 2,
            }
        } else {
            Step { cpu: self.spec_call((y * 8) as u16), cycles: 4 }
        }
    }

    /// The state after the instruction `opcode`, whose operands lie at
    /// the program counter, and the machine cycles that it takes.
    #[verifier::opaque]
    pub open spec fn spec_execute(self, opcode: u8) -> Step {
        if opcode < 0x40 {
            self.spec_block0(opcode)
        } else if opcode < 0x80 {
            self.spec_block1(opcode)
        } else if opcode < 0xc0 {
            self.spec_block2(opcode)
        } else {
            self.spec_block3(opcode)
        }
    }

    /// The state after the delays of DI and EI moved on by one
    /// instruction: each takes effect when its count goes from 1 to 0.
    pub open spec fn spec_update_ime(self) -> CpuView {
        let after_di = if self.setdi == 1 { false } else { self.ime };
        CpuView {
            setdi: if self.setdi == 2 { 1 } else { 0 },
            setei: if self.setei == 2 { 1 } else { 0 },
            ime: if self.setei == 1 { true } else { after_di },
            ..self
        }
    }

    /// The interrupt that the processor would serve: the most urgent of
    /// those requested and enabled.
    pub open spec fn spec_pending(self) -> Option<Interrupt> {
        spec_first_pending(self.bus.irq.spec_pending())
    }

    /// The state after a pending interrupt woke the processor: if it was
    /// halted it runs again, from the instruction after the HALT.
    pub open spec fn spec_wake(self) -> CpuView {
        if self.halted {
            CpuView { halted: false, ..self.spec_skip(1) }
        } else {
            self
        }
    }

    /// The state after the interrupt `kind` is served: the processor
    /// wakes, the master enable goes off, the request is withdrawn, the
    /// program counter is pushed and set to the handler.
    pub open spec fn spec_dispatch(self, kind: Interrupt) -> CpuView {
        let awake = self.spec_wake();
        (CpuView {
            ime: false,
            bus: InterconnectView { irq: awake.bus.irq.spec_acknowledge(kind), ..awake.bus },
            ..awake
        }).spec_call(kind.spec_address())
    }

    /// One step of the processor. The delays of DI and EI move on. If an
    /// interrupt is pending, a halted processor wakes, and if the master
    /// enable is on the interrupt is served and nothing else happens in
    /// this step. A processor that is still halted idles for one machine
    /// cycle. Otherwise the byte at the program counter is fetched and
    /// executed; if it is no instruction, the program counter stays on it
    /// and the step fails.
    #[verifier::opaque]
    pub open spec fn spec_step(self) -> StepOutcome {
        let timed = self.spec_update_ime();
        let pending = timed.spec_pending();
        if pending is Some && timed.ime {
            StepOutcome { cpu: timed.spec_dispatch(pending->0), result: Ok(INTERRUPT_CYCLES) }
        } else {
            let awake = if pending is Some { timed.spec_wake() } else { timed };
            if awake.halted {
                StepOutcome { cpu: awake, result: Ok(1) }
            } else {
                let opcode = awake.spec_imm8();
                if !spec_defined(opcode) {
                    StepOutcome {
                        cpu: awake,
                        result: Err(CpuError::UnimplementedOpcode(opcode, awake.regs.pc)),
                    }
                } else {
                    let done = awake.spec_skip(1).spec_execute(opcode);
                    StepOutcome { cpu: done.cpu, result: Ok(done.cycles) }
                }
            }
        }
    }
}

/// What a run of the processor gives: the state after it, and the
/// machine cycles that it took in all, or the reason it ended early.
pub struct RunOutcome {
    /// The state after the run.
    pub cpu: CpuView,
    /// The machine cycles of the run, or why it ended early.
    pub result: Result<u64, CpuError>,
}

/// The sum of machine cycles `total` after `cycles` more; it stops at the
/// highest number that 64 bits hold.
pub open spec fn spec_total(total: u64, cycles: u32) -> u64 {
    if total + cycles > u64::MAX {
        u64::MAX
    } else {
        (total + cycles) as u64
    }
}

impl CpuView {
    /// The processor run for `instructions` steps from a sum of `total`
    /// machine cycles: after each step the peripherals get the machine
    /// cycles that it took. The run ends early at a step that fails.
    pub open spec fn spec_run(self, instructions: nat, total: u64) -> RunOutcome
        decreases instructions,
    {
        if instructions == 0 {
            RunOutcome { cpu: self, result: Ok(total) }
        } else {
            let out = self.spec_step();
            match out.result {
                Err(e) => RunOutcome { cpu: out.cpu, result: Err(e) },
                Ok(cycles) => (CpuView { bus: out.cpu.bus.spec_step(cycles), ..out.cpu }).spec_run(
                    (instructions - 1) as nat,
                    spec_total(total, cycles),
                ),
            }
        }
    }
}

/// The processor. It owns the interconnect.
pub struct Cpu {
    /// The registers.
    pub regs: Registers,
    /// The interconnect.
    pub interconnect: Interconnect,
    /// Whether the processor waits for an interrupt.
    pub halted: bool,
    /// The interrupt master enable.
    pub ime: bool,
    /// Counts down to the moment a DI takes effect.
    pub setdi: u8,
    /// Counts down to the moment an EI takes effect.
    pub setei: u8,
}

impl View for Cpu {
    type V = CpuView;

    open spec fn view(&self) -> CpuView {
        CpuView {
            regs: self.regs,
            halted: self.halted,
            ime: self.ime,
            setdi: self.setdi,
            setei: self.setei,
            bus: self.interconnect@,
        }
    }
}

impl Cpu {
    /// The invariant of the processor: that of its interconnect.
    pub open spec fn wf(&self) -> bool {
        self.interconnect.wf()
    }

    /// A processor around `inter`, in the state in which the boot program
    /// leaves it: running at `0x0100`, interrupts off.
    pub fn new(inter: Interconnect) -> (cpu: Cpu)
        ensures
            cpu@ == (CpuView {
                regs: Registers::post_boot(),
                halted: false,
                ime: false,
                setdi: 0,
                setei: 0,
                bus: inter@,
            }),
    {
        Cpu {
            regs: Registers::new(),
            halted: false,
            interconnect: inter,
            ime: false,
            setdi: 0,
            setei: 0,
        }
    }

    /// As `new`, for the colour console: A is `0x11`.
    pub fn new_gbc(inter: Interconnect) -> (cpu: Cpu)
        ensures
            cpu@ == (CpuView {
                regs: Registers { a: 0x11, ..Registers::post_boot() },
                halted: false,
                ime: false,
                setdi: 0,
                setei: 0,
                bus: inter@,
            }),
    {
        Cpu {
            regs: Registers::new_gbc(),
            halted: false,
            interconnect: inter,
            ime: false,
            setdi: 0,
            setei: 0,
        }
    }

    /// Runs the processor for `instructions` steps, giving the peripherals
    /// after each step the machine cycles that it took, and returns the
    /// machine cycles of the whole run. The run ends at once at a byte
    /// that is no instruction.
    pub fn run(&mut self, instructions: u32) -> (r: Result<u64, CpuError>)
        requires
            old(self).wf(),
        ensures
            final(self).wf(),
            final(self)@ == old(self)@.spec_run(instructions as nat, 0).cpu,
            r == old(self)@.spec_run(instructions as nat, 0).result,
    {
        let mut total: u64 = 0;
        let mut left: u32 = instructions;
        while left > 0
            invariant
                self.wf(),
                self@.spec_run(left as nat, total) == old(self)@.spec_run(instructions as nat, 0),
            decreases left,
        {
            let cycles = match self.step() {
                Ok(cycles) => cycles,
                Err(e) => {
                    return Err(e);
                },
            };
            let _ = self.interconnect.do_cycle(cycles);
            total = total.saturating_add(cycles as u64);
            left -= 1;
        }
        Ok(total)
    }

    /// Reads the byte at the program counter and moves it on.
    fn fetch_byte(&mut self) -> (byte: u8)
        requires
            old(self).wf(),
        ensures
            final(self).wf(),
            byte == old(self)@.spec_imm8(),
            final(self)@ == old(self)@.spec_skip(1),
    {
        let byte = self.interconnect.read_byte(self.regs.pc);
        self.regs.pc = self.regs.pc.wrapping_add(1);
        byte
    }

    /// Reads the word at the program counter and moves it on.
    fn fetch_word(&mut self) -> (word: u16)
        requires
            old(self).wf(),
        ensures
            final(self).wf(),
            word == old(self)@.spec_imm16(),
            final(self)@ == old(self)@.spec_skip(2),
    {
        let word = self.interconnect.read_word(self.regs.pc);
        self.regs.pc = self.regs.pc.wrapping_add(2);
        word
    }

    /// Moves the delays of DI and EI on by one instruction.
    fn update_ime(&mut self)
        ensures
            final(self)@ == old(self)@.spec_update_ime(),
    {
        self.setdi =
        match self.setdi {
            2 => 1,
            1 => {
                self.ime = false;
                0
            },
            _ => 0,
        };
        self.setei =
        match self.setei {
            2 => 1,
            1 => {
                self.ime = true;
                0
            },
            _ => 0,
        };
    }

    /// The 8-bit operand numbered `index`.
    fn read_r8(&self, index: u8) -> (value: u8)
        requires
            self.wf(),
            index < 8,
        ensures
            value == self@.spec_r8(index),
    {
        proof {
            reveal(CpuView::spec_r8);
        }
        match index {
            0 => self.regs.b,
            1 => self.regs.c,
            2 => self.regs.d,
            3 => self.regs.e,
            4 => self.regs.h,
            5 => self.regs.l,
            6 => self.interconnect.read_byte(self.regs.hl()),
            _ => self.regs.a,
        }
    }

    /// Stores `value` in the 8-bit operand numbered `index`.
    fn write_r8(&mut self, index: u8, value: u8)
        requires
            old(self).wf(),
            index < 8,
        ensures
            final(self).wf(),
            final(self)@ == old(self)@.spec_set_r8(index, value),
    {
        proof {
            reveal(CpuView::spec_set_r8);
        }
        match index {
            0 => {
                self.regs.b = value;
            },
            1 => {
                self.regs.c = value;
            },
            2 => {
                self.regs.d = value;
            },
            3 => {
                self.regs.e = value;
            },
            4 => {
                self.regs.h = value;
            },
            5 => {
                self.regs.l = value;
            },
            6 => {
                let address = self.regs.hl();
                self.interconnect.write_byte(address, value);
            },
            _ => {
                self.regs.a = value;
            },
        }
    }

    /// The register pair numbered `index`: BC, DE, HL, SP.
    fn read_r16(&self, index: u8) -> (value: u16)
        requires
            index < 4,
        ensures
            value == self@.spec_r16(index),
    {
        proof {
            reveal(CpuView::spec_r16);
        }
        match index {
            0 => self.regs.bc(),
            1 => self.regs.de(),
            2 => self.regs.hl(),
            _ => self.regs.sp,
        }
    }

    /// Stores `value` in the register pair numbered `index`: BC, DE, HL,
    /// SP.
    fn write_r16(&mut self, index: u8, value: u16)
        requires
            old(self).wf(),
            index < 4,
        ensures
            final(self).wf(),
            final(self)@ == old(self)@.spec_set_r16(index, value),
    {
        proof {
            reveal(CpuView::spec_set_r16);
        }
        match index {
            0 => self.regs.set_bc(value),
            1 => self.regs.set_de(value),
            2 => self.regs.set_hl(value),
            _ => self.regs.set_sp(value),
        }
    }

    /// The register pair that PUSH and POP number `index`.
    fn read_rp2(&self, index: u8) -> (value: u16)
        requires
            index < 4,
        ensures
            value == self@.spec_rp2(index),
    {
        proof {
            reveal(CpuView::spec_rp2);
        }
        if index == 3 {
            self.regs.af()
        } else {
            self.read_r16(index)
        }
    }

    /// Stores `value` in the register pair that PUSH and POP number
    /// `index`.
    fn write_rp2(&mut self, index: u8, value: u16)
        requires
            old(self).wf(),
            index < 4,
        ensures
            final(self).wf(),
            final(self)@ == old(self)@.spec_set_rp2(index, value),
    {
        proof {
            reveal(CpuView::spec_rp2);
            reveal(CpuView::spec_set_rp2);
        }
        if index == 3 {
            self.regs.set_af(value);
        } else {
            self.write_r16(index, value);
        }
    }

    /// Whether the condition numbered `cc` holds.
    fn condition(&self, cc: u8) -> (holds: bool)
        requires
            cc < 4,
        ensures
            holds == self@.spec_condition(cc),
    {
        proof {
            reveal(CpuView::spec_condition);
        }
        match cc {
            0 => !self.regs.flags.z,
            1 => self.regs.flags.z,
            2 => !self.regs.flags.c,
            _ => self.regs.flags.c,
        }
    }

    /// Pushes `value` on the stack.
    fn stack_push(&mut self, value: u16)
        requires
            old(self).wf(),
        ensures
            final(self).wf(),
            final(self)@ == old(self)@.spec_push(value),
    {
        proof {
            reveal(CpuView::spec_push);
        }
        let sp = self.regs.sp.wrapping_sub(2);
        self.regs.sp = sp;
        self.interconnect.write_byte(sp.wrapping_add(1), (value / 256) as u8);
        self.interconnect.write_byte(sp, (value % 256) as u8);
    }

    /// Pops a word off the stack.
    fn stack_pop(&mut self) -> (value: u16)
        requires
            old(self).wf(),
        ensures
            final(self).wf(),
            value == old(self)@.spec_pop_value(),
            final(self)@ == old(self)@.spec_pop(),
    {
        let value = self.interconnect.read_word(self.regs.sp);
        self.regs.sp = self.regs.sp.wrapping_add(2);
        value
    }

    /// Jumps by the displacement at the program counter.
    fn cpu_jr(&mut self)
        requires
            old(self).wf(),
        ensures
            final(self).wf(),
            final(self)@ == old(self)@.spec_jr(),
    {
        proof {
            reveal(CpuView::spec_jr);
        }
        let offset = self.fetch_byte();
        if offset < 128 {
            self.regs.pc = self.regs.pc.wrapping_add(offset as u16);
        } else {
            self.regs.pc = self.regs.pc.wrapping_sub(256 - offset as u16);
        }
    }

    /// Calls `target`.
    fn call(&mut self, target: u16)
        requires
            old(self).wf(),
        ensures
            final(self).wf(),
            final(self)@ == old(self)@.spec_call(target),
    {
        proof {
            reveal(CpuView::spec_call);
        }
        let pc = self.regs.pc;
        self.stack_push(pc);
        self.regs.pc = target;
    }

    /// Returns to the address on the stack.
    fn ret(&mut self)
        requires
            old(self).wf(),
        ensures
            final(self).wf(),
            final(self)@ == old(self)@.spec_ret(),
    {
        proof {
            reveal(CpuView::spec_ret);
        }
        self.regs.pc = self.stack_pop();
    }

    /// Serves the most urgent pending interrupt, if the master enable is
    /// on, and wakes a halted processor if any is pending. Returns the
    /// machine cycles spent: 5 if an interrupt was served, else 0.
    fn handle_interrupt(&mut self) -> (cycles: u32)
        requires
            old(self).wf(),
        ensures
            final(self).wf(),
            old(self)@.spec_pending() is Some && old(self).ime ==> cycles == INTERRUPT_CYCLES
                && final(self)@ == old(self)@.spec_dispatch(old(self)@.spec_pending()->0),
            old(self)@.spec_pending() is Some && !old(self).ime ==> cycles == 0 && final(self)@
                == old(self)@.spec_wake(),
            old(self)@.spec_pending() is None ==> cycles == 0 && final(self)@ == old(self)@,
    {
        let kind = match self.interconnect.irq().first_pending() {
            Some(kind) => kind,
            None => {
                return 0;
            },
        };
        if self.halted {
            self.halted = false;
            self.regs.pc = self.regs.pc.wrapping_add(1);
        }
        if !self.ime {
            return 0;
        }
        self.ime = false;
        self.interconnect.irq_acknowledge(kind);
        self.call(kind.get_address());
        INTERRUPT_CYCLES
    }

    /// Executes one of the opcodes `0x00..=0x3f` whose low three bits are
    /// 0.
    fn block0_control(&mut self, y: u8) -> (cycles: u32)
        requires
            old(self).wf(),
            y < 8,
        ensures
            final(self).wf(),
            final(self)@ == old(self)@.spec_block0_control(y).cpu,
            cycles == old(self)@.spec_block0_control(y).cycles,
    {
        proof {
            reveal(CpuView::spec_block0_control);
        }
        if y == 0 {
            1
        } else if y == 1 {
            let address = self.fetch_word();
            self.interconnect.write_word(address, self.regs.sp);
            5
        } else if y == 2 {
            let _ = self.fetch_byte();
            self.interconnect.switch_speed();
            1
        } else if y == 3 || self.condition(y - 4) {
            self.cpu_jr();
            3
        } else {
            let _ = self.fetch_byte();
            2
        }
    }

    /// Executes a load between A and the byte at BC, DE, HL+ or HL-.
    fn block0_indirect(&mut self, p: u8, q: u8) -> (cycles: u32)
        requires
            old(self).wf(),
            p < 4,
            q < 2,
        ensures
            final(self).wf(),
            final(self)@ == old(self)@.spec_block0_indirect(p, q).cpu,
            cycles == old(self)@.spec_block0_indirect(p, q).cycles,
    {
        proof {
            reveal(CpuView::spec_block0_indirect);
        }
        let address = match p {
            0 => self.regs.bc(),
            1 => self.regs.de(),
            2 => self.regs.hli(),
            _ => self.regs.hld(),
        };
        if q == 0 {
            self.interconnect.write_byte(address, self.regs.a);
        } else {
            self.regs.a = self.interconnect.read_byte(address);
        }
        2
    }

    /// Executes an operation on the accumulator alone.
    fn block0_accumulator(&mut self, y: u8) -> (cycles: u32)
        requires
            old(self).wf(),
            y < 8,
        ensures
            final(self).wf(),
            final(self)@ == old(self)@.spec_block0_accumulator(y).cpu,
            cycles == old(self)@.spec_block0_accumulator(y).cycles,
    {
        proof {
            reveal(CpuView::spec_block0_accumulator);
        }
        if y < 4 {
            self.regs.a = self.regs.alu_rotate(y, self.regs.a);
            self.regs.flags.z = false;
        } else if y == 4 {
            self.regs.alu_daa();
        } else if y == 5 {
            self.regs.a = 255 - self.regs.a;
            self.regs.flags.n = true;
            self.regs.flags.h = true;
        } else if y == 6 {
            self.regs.flags.n = false;
            self.regs.flags.h = false;
            self.regs.flags.c = true;
        } else {
            self.regs.flags.n = false;
            self.regs.flags.h = false;
            self.regs.flags.c = !self.regs.flags.c;
        }
        1
    }

    /// Executes one of the opcodes `0x00..=0x3f`.
    fn block0(&mut self, opcode: u8) -> (cycles: u32)
        requires
            old(self).wf(),
            opcode < 0x40,
        ensures
            final(self).wf(),
            final(self)@ == old(self)@.spec_block0(opcode).cpu,
            cycles == old(self)@.spec_block0(opcode).cycles,
    {
        proof {
            reveal(CpuView::spec_block0);
        }
        let y = (opcode / 8) % 8;
        let z = opcode % 8;
        let p = y / 2;
        let q = y % 2;
        if z == 0 {
            self.block0_control(y)
        } else if z == 1 {
            if q == 0 {
                let word = self.fetch_word();
                self.write_r16(p, word);
                3
            } else {
                let value = self.read_r16(p);
                self.regs.alu_add16(value);
                2
            }
        } else if z == 2 {
            self.block0_indirect(p, q)
        } else if z == 3 {
            let value = self.read_r16(p);
            if q == 0 {
                self.write_r16(p, value.wrapping_add(1));
            } else {
                self.write_r16(p, value.wrapping_sub(1));
            }
            2
        } else if z == 4 || z == 5 {
            let value = self.read_r8(y);
            let result = if z == 4 {
                self.regs.alu_inc(value)
            } else {
                self.regs.alu_dec(value)
            };
            self.write_r8(y, result);
            if y == 6 {
                3
            } else {
                1
            }
        } else if z == 6 {
            let value = self.fetch_byte();
            self.write_r8(y, value);
            if y == 6 {
                3
            } else {
                2
            }
        } else {
            self.block0_accumulator(y)
        }
    }

    /// Executes one of the opcodes `0x40..=0x7f`.
    fn block1(&mut self, opcode: u8) -> (cycles: u32)
        requires
            old(self).wf(),
            0x40 <= opcode < 0x80,
        ensures
            final(self).wf(),
            final(self)@ == old(self)@.spec_block1(opcode).cpu,
            cycles == old(self)@.spec_block1(opcode).cycles,
    {
        proof {
            reveal(CpuView::spec_block1);
        }
        let y = (opcode / 8) % 8;
        let z = opcode % 8;
        if opcode == 0x76 {
            self.halted = true;
            self.regs.pc = self.regs.pc.wrapping_sub(1);
            1
        } else {
            let value = self.read_r8(z);
            self.write_r8(y, value);
            if y == 6 || z == 6 {
                2
            } else {
                1
            }
        }
    }

    /// Executes one of the opcodes `0x80..=0xbf`.
    fn block2(&mut self, opcode: u8) -> (cycles: u32)
        requires
            old(self).wf(),
            0x80 <= opcode < 0xc0,
        ensures
            final(self).wf(),
            final(self)@ == old(self)@.spec_block2(opcode).cpu,
            cycles == old(self)@.spec_block2(opcode).cycles,
    {
        proof {
            reveal(CpuView::spec_block2);
        }
        let y = (opcode / 8) % 8;
        let z = opcode % 8;
        let value = self.read_r8(z);
        self.regs.alu(y, value);
        if z == 6 {
            2
        } else {
            1
        }
    }

    /// Executes one of the opcodes from `0xc0` whose low three bits are
    /// 0.
    fn block3_misc(&mut self, y: u8) -> (cycles: u32)
        requires
            old(self).wf(),
            y < 8,
        ensures
            final(self).wf(),
            final(self)@ == old(self)@.spec_block3_misc(y).cpu,
            cycles == old(self)@.spec_block3_misc(y).cycles,
    {
        proof {
            reveal(CpuView::spec_block3_misc);
        }
        if y < 4 {
            if self.condition(y) {
                self.ret();
                5
            } else {
                2
            }
        } else if y == 4 {
            let n = self.fetch_byte();
            self.interconnect.write_byte(0xff00 + n as u16, self.regs.a);
            3
        } else if y == 5 {
            let n = self.fetch_byte();
            let sp = self.regs.sp;
            self.regs.sp = self.regs.alu_add16imm(sp, n);
            4
        } else if y == 6 {
            let n = self.fetch_byte();
            self.regs.a = self.interconnect.read_byte(0xff00 + n as u16);
            3
        } else {
            let n = self.fetch_byte();
            let sp = self.regs.sp;
            let sum = self.regs.alu_add16imm(sp, n);
            self.regs.set_hl(sum);
            3
        }
    }

    /// Executes one of the opcodes from `0xc0` whose low three bits are
    /// 1.
    fn block3_pop(&mut self, p: u8, q: u8) -> (cycles: u32)
        requires
            old(self).wf(),
            p < 4,
            q < 2,
        ensures
            final(self).wf(),
            final(self)@ == old(self)@.spec_block3_pop(p, q).cpu,
            cycles == old(self)@.spec_block3_pop(p, q).cycles,
    {
        proof {
            reveal(CpuView::spec_block3_pop);
        }
        if q == 0 {
            let value = self.stack_pop();
            self.write_rp2(p, value);
            3
        } else if p == 0 {
            self.ret();
            4
        } else if p == 1 {
            self.ret();
            self.setei = 1;
            4
        } else if p == 2 {
            self.regs.pc = self.regs.hl();
            1
        } else {
            self.regs.sp = self.regs.hl();
            2
        }
    }

    /// Executes one of the opcodes from `0xc0` whose low three bits are
    /// 2.
    fn block3_jump(&mut self, y: u8) -> (cycles: u32)
        requires
            old(self).wf(),
            y < 8,
        ensures
            final(self).wf(),
            final(self)@ == old(self)@.spec_block3_jump(y).cpu,
            cycles == old(self)@.spec_block3_jump(y).cycles,
    {
        proof {
            reveal(CpuView::spec_block3_jump);
        }
        if y < 4 {
            let taken = self.condition(y);
            let target = self.fetch_word();
            if taken {
                self.regs.pc = target;
                4
            } else {
                3
            }
        } else if y == 4 {
            self.interconnect.write_byte(0xff00 + self.regs.c as u16, self.regs.a);
            2
        } else if y == 5 {
            let address = self.fetch_word();
            self.interconnect.write_byte(address, self.regs.a);
            4
        } else if y == 6 {
            self.regs.a = self.interconnect.read_byte(0xff00 + self.regs.c as u16);
            2
        } else {
            let address = self.fetch_word();
            self.regs.a = self.interconnect.read_byte(address);
            4
        }
    }

    /// Executes an extended opcode, which lies at the program counter.
    fn process_cb_opcodes(&mut self) -> (cycles: u32)
        requires
            old(self).wf(),
        ensures
            final(self).wf(),
            final(self)@ == old(self)@.spec_cb().cpu,
            cycles == old(self)@.spec_cb().cycles,
    {
        proof {
            reveal(CpuView::spec_cb);
        }
        let opcode = self.fetch_byte();
        let x = opcode / 64;
        let y = (opcode / 8) % 8;
        let z = opcode % 8;
        let value = self.read_r8(z);
        if x == 0 {
            let result = self.regs.alu_rotate(y, value);
            self.write_r8(z, result);
        } else if x == 1 {
            self.regs.alu_bit(value, y);
        } else if x == 2 {
            self.write_r8(z, value & !(1u8 << y));
        } else {
            self.write_r8(z, value | (1u8 << y));
        }
        if z != 6 {
            2
        } else if x == 1 {
            3
        } else {
            4
        }
    }

    /// Executes one of the opcodes `0xc0..=0xff` that are instructions.
    fn block3(&mut self, opcode: u8) -> (cycles: u32)
        requires
            old(self).wf(),
            0xc0 <= opcode,
            spec_defined(opcode),
        ensures
            final(self).wf(),
            final(self)@ == old(self)@.spec_block3(opcode).cpu,
            cycles == old(self)@.spec_block3(opcode).cycles,
    {
        proof {
            reveal(CpuView::spec_block3);
        }
        let y = (opcode / 8) % 8;
        let z = opcode % 8;
        let p = y / 2;
        let q = y % 2;
        if z == 0 {
            self.block3_misc(y)
        } else if z == 1 {
            self.block3_pop(p, q)
        } else if z == 2 {
            self.block3_jump(y)
        } else if z == 3 {
            if y == 0 {
                self.regs.pc = self.fetch_word();
                4
            } else if y == 1 {
                self.process_cb_opcodes()
            } else if y == 6 {
                self.setdi = 2;
                1
            } else {
                self.setei = 2;
                1
            }
        } else if z == 4 {
            let taken = self.condition(y);
            let target = self.fetch_word();
            if taken {
                self.call(target);
                6
            } else {
                3
            }
        } else if z == 5 {
            if q == 0 {
                let value = self.read_rp2(p);
                self.stack_push(value);
                4
            } else {
                let target = self.fetch_word();
                self.call(target);
                6
            }
        } else if z == 6 {
            let value = self.fetch_byte();
            self.regs.alu(y, value);
            2
        } else {
            self.call((y * 8) as u16);
            4
        }
    }

    /// Executes the instruction `opcode`, whose operands lie at the
    /// program counter, and returns the machine cycles that it takes.
    fn execute(&mut self, opcode: u8) -> (cycles: u32)
        requires
            old(self).wf(),
            spec_defined(opcode),
        ensures
            final(self).wf(),
            final(self)@ == old(self)@.spec_execute(opcode).cpu,
            cycles == old(self)@.spec_execute(opcode).cycles,
    {
        proof {
            reveal(CpuView::spec_execute);
        }
        if opcode < 0x40 {
            self.block0(opcode)
        } else if opcode < 0x80 {
            self.block1(opcode)
        } else if opcode < 0xc0 {
            self.block2(opcode)
        } else {
            self.block3(opcode)
        }
    }

    /// Fetches the byte at the program counter and executes it. A byte
    /// that is no instruction is refused; the processor then stays as it
    /// was.
    fn process_next_instruction(&mut self) -> (r: Result<u32, CpuError>)
        requires
            old(self).wf(),
        ensures
            final(self).wf(),
            !spec_defined(old(self)@.spec_imm8()) ==> final(self)@ == old(self)@ && r == Err::<
                u32,
                CpuError,
            >(CpuError::UnimplementedOpcode(old(self)@.spec_imm8(), old(self).regs.pc)),
            spec_defined(old(self)@.spec_imm8()) ==> final(self)@ == old(self)@.spec_skip(
                1,
            ).spec_execute(old(self)@.spec_imm8()).cpu && r == Ok::<u32, CpuError>(
                old(self)@.spec_skip(1).spec_execute(old(self)@.spec_imm8()).cycles,
            ),
    {
        let pc = self.regs.pc;
        let opcode = self.interconnect.read_byte(pc);
        let defined = !(opcode == 0xd3 || opcode == 0xdb || opcode == 0xdd || opcode == 0xe3
            || opcode == 0xe4 || opcode == 0xeb || opcode == 0xec || opcode == 0xed || opcode
            == 0xf4 || opcode == 0xfc || opcode == 0xfd);
        if !defined {
            return Err(CpuError::UnimplementedOpcode(opcode, pc));
        }
        self.regs.pc = pc.wrapping_add(1);
        Ok(self.execute(opcode))
    }

    /// Takes one step: moves the delays of DI and EI on, serves a pending
    /// interrupt or executes the next instruction, and returns the
    /// machine cycles spent. The step fails, leaving the program counter
    /// where it is, if the byte to execute is no instruction.
    pub fn step(&mut self) -> (r: Result<u32, CpuError>)
        requires
            old(self).wf(),
        ensures
            final(self).wf(),
            final(self)@ == old(self)@.spec_step().cpu,
            r == old(self)@.spec_step().result,
    {
        proof {
            reveal(CpuView::spec_step);
        }
        self.update_ime();
        let served = self.handle_interrupt();
        if served != 0 {
            return Ok(served);
        }
        if self.halted {
            Ok(1)
        } else {
            self.process_next_instruction()
        }
    }
}

} // verus!
