//! The debugger: what a command line makes it do, and the snapshot that
//! it shows before each instruction.

use vstd::prelude::*;
use crate::cpu::registers::Registers;
use crate::cpu::wrap16;
use crate::cpu::CpuError;
use crate::cpu::CpuView;
use crate::debugger::command::spec_parse;
use crate::debugger::command::Command;
use crate::debugger::command::CommandError;
use crate::machine::Machine;

pub mod command;

verus! {

/// What the processor looks like between two instructions.
#[derive(Debug, Copy, Clone, PartialEq, Eq)]
pub struct Snapshot {
    /// The registers, flags included.
    pub regs: Registers,
    /// The interrupt master enable.
    pub ime: bool,
    /// Whether the processor waits for an interrupt.
    pub halted: bool,
    /// The three bytes at the program counter.
    pub at_pc: (u8, u8, u8),
    /// The three bytes at the stack pointer.
    pub at_sp: (u8, u8, u8),
    /// The two bytes at HL.
    pub at_hl: (u8, u8),
}

/// The snapshot of a processor state.
pub open spec fn spec_snapshot(v: CpuView) -> Snapshot {
    Snapshot {
        regs: v.regs,
        ime: v.ime,
        halted: v.halted,
        at_pc: (
            v.bus.spec_read(v.regs.pc),
            v.bus.spec_read(wrap16(v.regs.pc + 1)),
            v.bus.spec_read(wrap16(v.regs.pc + 2)),
        ),
        at_sp: (
            v.bus.spec_read(v.regs.sp),
            v.bus.spec_read(wrap16(v.regs.sp + 1)),
            v.bus.spec_read(wrap16(v.regs.sp + 2)),
        ),
        at_hl: (
            v.bus.spec_read(v.regs.spec_hl()),
            v.bus.spec_read(wrap16(v.regs.spec_hl() + 1)),
        ),
    }
}

/// The command that a line stands for, given the last command: a line
/// that asks to repeat stands for the last command and is refused if
/// there is none.
pub open spec fn spec_resolve(line: Seq<u8>, last: Option<Command>) -> Result<
    Command,
    CommandError,
> {
    match spec_parse(line) {
        None => Err(CommandError::Unrecognized),
        Some(Command::Repeat) => match last {
            Some(command) => Ok(command),
            None => Err(CommandError::NoLastCommand),
        },
        Some(command) => Ok(command),
    }
}

/// The debugger: a machine and the memory of the last command.
pub struct Debugger {
    /// The machine under the debugger.
    pub machine: Machine,
    /// The last command that was understood, unless a line that was not
    /// understood came after it. Never `Repeat`.
    pub last_command: Option<Command>,
}

impl Debugger {
    /// The invariant of the debugger.
    pub open spec fn wf(&self) -> bool {
        self.machine.wf() && self.last_command != Some(Command::Repeat)
    }

    /// A debugger around `machine`, with no last command.
    pub fn new(machine: Machine) -> (d: Debugger)
        requires
            machine.wf(),
        ensures
            d.wf(),
            d.machine@ == machine@,
            d.last_command is None,
    {
        Debugger { machine, last_command: None }
    }

    /// Takes a command line and says what to do: the command that the
    /// line stands for, never `Repeat`, or why there is none. What it says
    /// is remembered as the last command; after a refusal there is no
    /// last command.
    pub fn command(&mut self, line: &[u8]) -> (r: Result<Command, CommandError>)
        requires
            old(self).wf(),
        ensures
            final(self).wf(),
            r == spec_resolve(line@, old(self).last_command),
            final(self).machine == old(self).machine,
            final(self).last_command == (match r {
                Ok(command) => Some(command),
                Err(_) => None::<Command>,
            }),
            r != Ok::<Command, CommandError>(Command::Repeat),
    {
        let resolved = match Command::parse(line) {
            Err(e) => Err(e),
            Ok(Command::Repeat) => match self.last_command {
                Some(command) => Ok(command),
                None => Err(CommandError::NoLastCommand),
            },
            Ok(command) => Ok(command),
        };
        self.last_command =
        match resolved {
            Ok(command) => Some(command),
            Err(_) => None,
        };
        resolved
    }

    /// What the processor looks like now.
    pub fn snapshot(&self) -> (s: Snapshot)
        requires
            self.wf(),
        ensures
            s == spec_snapshot(self.machine@.cpu),
    {
        let cpu = &self.machine.cpu;
        let bus = &cpu.interconnect;
        let pc = cpu.regs.pc;
        let sp = cpu.regs.sp;
        let hl = cpu.regs.hl();
        Snapshot {
            regs: cpu.regs,
            ime: cpu.ime,
            halted: cpu.halted,
            at_pc: (
                bus.read_byte(pc),
                bus.read_byte(pc.wrapping_add(1)),
                bus.read_byte(pc.wrapping_add(2)),
            ),
            at_sp: (
                bus.read_byte(sp),
                bus.read_byte(sp.wrapping_add(1)),
                bus.read_byte(sp.wrapping_add(2)),
            ),
            at_hl: (bus.read_byte(hl), bus.read_byte(hl.wrapping_add(1))),
        }
    }

    /// The single step: takes the snapshot and then lets the machine
    /// execute one instruction. Returns the snapshot, or the reason the
    /// instruction could not be executed.
    pub fn step(&mut self) -> (r: Result<Snapshot, CpuError>)
        requires
            old(self).wf(),
        ensures
            final(self).wf(),
            final(self).machine@ == old(self).machine@.spec_emulate(),
            final(self).last_command == old(self).last_command,
            r == (match old(self).machine@.cpu.spec_step().result {
                Ok(_) => Ok::<Snapshot, CpuError>(spec_snapshot(old(self).machine@.cpu)),
                Err(e) => Err::<Snapshot, CpuError>(e),
            }),
    {
        let shot = self.snapshot();
        match self.machine.emulate() {
            Ok(_) => Ok(shot),
            Err(e) => Err(e),
        }
    }
}

} // verus!
