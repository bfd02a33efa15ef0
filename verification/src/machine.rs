//! The machine: the processor and, through it, everything else, moved by
//! one clock.

use vstd::prelude::*;
use crate::cartridge::Cartridge;
use crate::cpu::registers::Flags;
use crate::cpu::registers::Registers;
use crate::cpu::spec_total;
use crate::cpu::Cpu;
use crate::cpu::CpuError;
use crate::cpu::CpuView;
use crate::gpu::types::ScreenBuffer;
use crate::gpu::Gpu;
use crate::gpu::GpuView;
use crate::io::Interconnect;
use crate::io::InterconnectView;

verus! {

/// Machine cycles of the processor within which a running display
/// completes a frame at either speed: twice 154 lines of 114 cycles.
pub const FRAME_BUDGET: u32 = 35112;

/// The machine, as mathematics.
pub struct MachineView {
    /// The processor and all it can reach.
    pub cpu: CpuView,
    /// The sum of the machine cycles that the processor reported; it
    /// stops at the highest number that 64 bits hold.
    pub reported: u64,
    /// The sum of the machine cycles that the peripherals were given; it
    /// stops at the highest number that 64 bits hold.
    pub applied: u64,
}

/// What a run up to the end of a frame gives.
pub struct FrameOutcome {
    /// The machine after the run.
    pub machine: MachineView,
    /// Whether a frame was completed, or why the processor stopped.
    pub result: Result<bool, CpuError>,
}

/// What is left of a budget of machine cycles after an instruction that
/// took `cycles`: at least one cycle goes, and no more than there are.
pub open spec fn spec_budget_left(budget: nat, cycles: u32) -> nat {
    if cycles == 0 {
        (budget - 1) as nat
    } else if cycles >= budget {
        0
    } else {
        (budget - cycles) as nat
    }
}

impl MachineView {
    /// The invariant of the machine: that of the processor, and that the
    /// machine cycles reported and applied add up to the same.
    pub open spec fn wf(self) -> bool {
        self.cpu.wf() && self.reported == self.applied
    }

    /// The machine after one instruction: the processor takes a step and
    /// reports its machine cycles; the peripherals are given as many. If
    /// the step fails nothing is reported and nothing given.
    #[verifier::opaque]
    pub open spec fn spec_emulate(self) -> MachineView {
        let out = self.cpu.spec_step();
        match out.result {
            Ok(cycles) => MachineView {
                cpu: CpuView { bus: out.cpu.bus.spec_step(cycles), ..out.cpu },
                reported: spec_total(self.reported, cycles),
                applied: spec_total(self.applied, cycles),
            },
            Err(_) => MachineView { cpu: out.cpu, ..self },
        }
    }

    /// The machine after `n` instructions.
    pub open spec fn spec_emulate_many(self, n: nat) -> MachineView
        decreases n,
    {
        if n == 0 {
            self
        } else {
            self.spec_emulate().spec_emulate_many((n - 1) as nat)
        }
    }

    /// The machine with the frame flag of the picture unit cleared.
    #[verifier::opaque]
    pub open spec fn spec_clear_frame_flag(self) -> MachineView {
        MachineView {
            cpu: CpuView {
                bus: InterconnectView {
                    gpu: GpuView { frame_ready: false, ..self.cpu.bus.gpu },
                    ..self.cpu.bus
                },
                ..self.cpu
            },
            ..self
        }
    }

    /// The machine run until the picture unit completes a frame, the
    /// processor stops, or `budget` machine cycles are spent.
    pub open spec fn spec_run_until_frame(self, budget: nat) -> FrameOutcome
        decreases budget,
    {
        if budget == 0 {
            FrameOutcome { machine: self, result: Ok(false) }
        } else {
            match self.cpu.spec_step().result {
                Err(e) => FrameOutcome { machine: self.spec_emulate(), result: Err(e) },
                Ok(cycles) => {
                    let next = self.spec_emulate();
                    if next.cpu.bus.gpu.frame_ready {
                        FrameOutcome { machine: next.spec_clear_frame_flag(), result: Ok(true) }
                    } else {
                        next.spec_run_until_frame(spec_budget_left(budget, cycles))
                    }
                },
            }
        }
    }
}

/// The console.
pub struct Machine {
    /// The processor, which owns the interconnect and through it the
    /// peripherals.
    pub cpu: Cpu,
    /// The sum of the machine cycles that the processor reported.
    pub reported: u64,
    /// The sum of the machine cycles that the peripherals were given.
    pub applied: u64,
}

impl View for Machine {
    type V = MachineView;

    open spec fn view(&self) -> MachineView {
        MachineView { cpu: self.cpu@, reported: self.reported, applied: self.applied }
    }
}

impl Machine {
    /// The invariant of the machine; the constructors establish it and
    /// every method keeps it.
    pub open spec fn wf(&self) -> bool {
        self@.wf()
    }

    /// A machine with `cartridge` in its slot, as the boot program leaves
    /// it, for a host that plays `samples_rate` sound samples per second.
    pub fn new(cartridge: Cartridge, samples_rate: u32) -> (m: Machine)
        requires
            cartridge.wf(),
        ensures
            m.wf(),
            m@ == (MachineView {
                cpu: CpuView {
                    regs: Registers::post_boot(),
                    halted: false,
                    ime: false,
                    setdi: 0,
                    setei: 0,
                    bus: InterconnectView::spec_new(cartridge@, GpuView::spec_new(), samples_rate),
                },
                reported: 0,
                applied: 0,
            }),
    {
        let interconnect = Interconnect::new(cartridge, Gpu::new(), samples_rate);
        let cpu = Cpu::new(interconnect);
        Machine { cpu, reported: 0, applied: 0 }
    }

    /// A machine that starts in the boot program `bootrom`, 256 bytes that
    /// hide the start of the cartridge until the program writes to
    /// `0xff50`: the program counter and every register are zero.
    pub fn with_bootrom(cartridge: Cartridge, samples_rate: u32, bootrom: Vec<u8>) -> (m: Machine)
        requires
            cartridge.wf(),
            bootrom@.len() == 0x100,
        ensures
            m.wf(),
            m@ == (MachineView {
                cpu: CpuView {
                    regs: Registers {
                        a: 0,
                        b: 0,
                        c: 0,
                        d: 0,
                        e: 0,
                        h: 0,
                        l: 0,
                        sp: 0,
                        pc: 0,
                        flags: Flags { c: false, h: false, n: false, z: false },
                    },
                    halted: false,
                    ime: false,
                    setdi: 0,
                    setei: 0,
                    bus: InterconnectView {
                        bootrom: bootrom@,
                        bootrom_mapped: true,
                        ..InterconnectView::spec_new(cartridge@, GpuView::spec_new(), samples_rate)
                    },
                },
                reported: 0,
                applied: 0,
            }),
    {
        let interconnect = Interconnect::with_bootrom(cartridge, Gpu::new(), samples_rate, bootrom);
        let mut cpu = Cpu::new(interconnect);
        cpu.regs = Registers {
            a: 0,
            b: 0,
            c: 0,
            d: 0,
            e: 0,
            h: 0,
            l: 0,
            sp: 0,
            pc: 0,
            flags: Flags { c: false, h: false, n: false, z: false },
        };
        Machine { cpu, reported: 0, applied: 0 }
    }

    /// The sum of the machine cycles that the processor reported.
    pub fn cycles_reported(&self) -> (count: u64)
        ensures
            count == self@.reported,
    {
        self.reported
    }

    /// The sum of the machine cycles that the peripherals were given.
    pub fn cycles_applied(&self) -> (count: u64)
        ensures
            count == self@.applied,
    {
        self.applied
    }

    /// Executes one instruction, or serves one interrupt, and gives the
    /// peripherals the machine cycles that it took. Returns those machine
    /// cycles. Fails if the byte to execute is no instruction; the
    /// peripherals then get no time.
    pub fn emulate(&mut self) -> (r: Result<u32, CpuError>)
        requires
            old(self).wf(),
        ensures
            final(self).wf(),
            final(self)@ == old(self)@.spec_emulate(),
            r == old(self)@.cpu.spec_step().result,
    {
        proof {
            reveal(MachineView::spec_emulate);
        }
        let cycles = match self.cpu.step() {
            Ok(cycles) => cycles,
            Err(e) => {
                return Err(e);
            },
        };
        self.reported = self.reported.saturating_add(cycles as u64);
        let _ = self.cpu.interconnect.do_cycle(cycles);
        self.applied = self.applied.saturating_add(cycles as u64);
        Ok(cycles)
    }

    /// Whether the picture unit completed a frame since the last call;
    /// the flag is cleared.
    pub fn take_frame_ready(&mut self) -> (ready: bool)
        requires
            old(self).wf(),
        ensures
            final(self).wf(),
            ready == old(self)@.cpu.bus.gpu.frame_ready,
            final(self)@ == old(self)@.spec_clear_frame_flag(),
            !ready ==> final(self)@ == old(self)@,
    {
        proof {
            reveal(MachineView::spec_clear_frame_flag);
        }
        self.cpu.interconnect.take_frame_ready()
    }

    /// Runs until the picture unit completes a frame and returns `true`;
    /// returns `false` if `FRAME_BUDGET` machine cycles pass without one,
    /// as happens while the display is off. Fails if the processor meets
    /// a byte that is no instruction.
    pub fn run_until_frame(&mut self) -> (r: Result<bool, CpuError>)
        requires
            old(self).wf(),
        ensures
            final(self).wf(),
            final(self)@ == old(self)@.spec_clear_frame_flag().spec_run_until_frame(
                FRAME_BUDGET as nat,
            ).machine,
            r == old(self)@.spec_clear_frame_flag().spec_run_until_frame(
                FRAME_BUDGET as nat,
            ).result,
    {
        let _ = self.take_frame_ready();
        let mut budget: u32 = FRAME_BUDGET;
        while budget > 0
            invariant
                self.wf(),
                self@.spec_run_until_frame(budget as nat)
                    == old(self)@.spec_clear_frame_flag().spec_run_until_frame(FRAME_BUDGET as nat),
            decreases budget,
        {
            let cycles = match self.emulate() {
                Ok(cycles) => cycles,
                Err(e) => {
                    return Err(e);
                },
            };
            if self.take_frame_ready() {
                return Ok(true);
            }
            budget = if cycles == 0 {
                budget - 1
            } else if cycles >= budget {
                0
            } else {
                budget - cycles
            };
        }
        Ok(false)
    }

    /// Runs until the picture unit completes a frame, or `FRAME_BUDGET`
    /// machine cycles pass without one, and returns the last complete
    /// frame. Fails if the processor meets a byte that is no instruction.
    pub fn run_frame(&mut self) -> (r: Result<&ScreenBuffer, CpuError>)
        requires
            old(self).wf(),
        ensures
            final(self).wf(),
            final(self)@ == old(self)@.spec_clear_frame_flag().spec_run_until_frame(
                FRAME_BUDGET as nat,
            ).machine,
            r is Ok <==> old(self)@.spec_clear_frame_flag().spec_run_until_frame(
                FRAME_BUDGET as nat,
            ).result is Ok,
            r is Ok ==> r->Ok_0@ == final(self)@.cpu.bus.gpu.front_buffer,
            r is Err ==> Err::<bool, CpuError>(r->Err_0)
                == old(self)@.spec_clear_frame_flag().spec_run_until_frame(
                FRAME_BUDGET as nat,
            ).result,
    {
        match self.run_until_frame() {
            Ok(_) => Ok(self.cpu.interconnect.screen_buffer()),
            Err(e) => Err(e),
        }
    }

    /// The last complete frame.
    pub fn screen_buffer(&self) -> (frame: &ScreenBuffer)
        ensures
            frame@ == self@.cpu.bus.gpu.front_buffer,
    {
        self.cpu.interconnect.screen_buffer()
    }
}

/// Over any number of instructions, the sum of the machine cycles that
/// the processor reports stays equal to the sum of the machine cycles
/// that the peripherals are given: each instruction adds the same to
/// both.
pub proof fn lemma_cycles_reported_are_applied(m: MachineView, n: nat)
    requires
        m.reported == m.applied,
    ensures
        m.spec_emulate_many(n).reported == m.spec_emulate_many(n).applied,
    decreases n,
{
    if n > 0 {
        reveal(MachineView::spec_emulate);
        lemma_cycles_reported_are_applied(m.spec_emulate(), (n - 1) as nat);
    }
}

} // verus!
