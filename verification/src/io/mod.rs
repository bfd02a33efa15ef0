//! The interconnect: every memory and every register of the console
//! behind one 16-bit address space, and the clock that drives them.

use vstd::prelude::*;
use crate::cartridge::models::Mbc;
use crate::cartridge::Cartridge;
use crate::cartridge::CartridgeView;
use crate::gpu::types::ScreenBuffer;
use crate::gpu::Gpu;
use crate::gpu::GpuView;
use crate::io::irq::Interrupt;
use crate::io::irq::Irq;
use crate::io::joypad::Joypad;
use crate::io::ram::Ram;
use crate::io::serial::Serial;
use crate::io::timer::spec_run;
use crate::io::timer::Timer;
use crate::sound::Sound;
use crate::sound::SoundView;
use crate::types::GbKey;

pub mod gpu;
pub mod io_map;
pub mod irq;
pub mod joypad;
pub mod laws;
pub mod map;
pub mod ram;
pub mod serial;
pub mod timer;

verus! {

/// The size of the work RAM.
pub const IRAM_SIZE: usize = 0x2000;
/// The size of the high RAM.
pub const ZPAGE_SIZE: usize = 0x7f;
/// The size of the boot program.
pub const BOOTROM_SIZE: usize = 0x100;
/// The number of bytes that a transfer into the object attribute memory
/// copies, one per machine cycle.
pub const OAM_DMA_LENGTH: u8 = 0xa0;
/// What a read yields where nothing answers.
pub const OPEN_BUS: u8 = 0xff;

/// The speed of the processor.
#[derive(Debug, Copy, Clone, PartialEq, Eq, Structural)]
pub enum GbSpeed {
    Single,
    Double,
}

/// The kinds of transfer.
#[derive(Debug, Copy, Clone, PartialEq, Eq, Structural)]
#[allow(clippy::upper_case_acronyms)]
pub enum DMAType {
    /// Into the object attribute memory.
    OAM,
    /// Into video RAM, all at once.
    GDMA,
    /// Into video RAM, a block in each horizontal blank.
    HDMA,
}

/// A transfer: where it reads, how far it has come, how much is left.
#[derive(Debug, Copy, Clone, PartialEq, Eq, Structural)]
pub struct Dma {
    /// The kind of the transfer.
    pub kind: DMAType,
    /// The address of the first byte to copy.
    pub src: u16,
    /// The number of bytes copied so far: the offset of the next one in
    /// source and destination.
    pub dst: u16,
    /// The number of bytes still to copy; the transfer is active while it
    /// is not zero.
    pub len: u8,
}

/// What answers at an address.
#[derive(Debug, Copy, Clone, PartialEq, Eq, Structural)]
pub enum Region {
    Rom,
    CharacterRam,
    TileMap1,
    TileMap2,
    CartridgeRam,
    WorkRam,
    Echo,
    Oam,
    Unusable,
    Io,
    BootromSwitch,
    WorkRamBank,
    HighRam,
    InterruptEnable,
    /// Nothing: reads yield `0xff`, writes are dropped.
    Unmapped,
}

/// What answers at `address`.
pub open spec fn spec_region(address: u16) -> Region {
    if address <= 0x7fff {
        Region::Rom
    } else if address <= 0x97ff {
        Region::CharacterRam
    } else if address <= 0x9bff {
        Region::TileMap1
    } else if address <= 0x9fff {
        Region::TileMap2
    } else if address <= 0xbfff {
        Region::CartridgeRam
    } else if address <= 0xdfff {
        Region::WorkRam
    } else if address <= 0xfdff {
        Region::Echo
    } else if address <= 0xfe9f {
        Region::Oam
    } else if address <= 0xfeff {
        Region::Unusable
    } else if address <= 0xff4b {
        Region::Io
    } else if address == 0xff50 {
        Region::BootromSwitch
    } else if address == 0xff70 {
        Region::WorkRamBank
    } else if 0xff80 <= address <= 0xfffe {
        Region::HighRam
    } else if address == 0xffff {
        Region::InterruptEnable
    } else {
        Region::Unmapped
    }
}

/// What answers at `address`.
pub fn region(address: u16) -> (r: Region)
    ensures
        r == spec_region(address),
{
    if map::in_range(address, map::ROM).is_some() {
        Region::Rom
    } else if map::in_range(address, map::CHAR_RAM).is_some() {
        Region::CharacterRam
    } else if map::in_range(address, map::V_TILE_MAP1).is_some() {
        Region::TileMap1
    } else if map::in_range(address, map::V_TILE_MAP2).is_some() {
        Region::TileMap2
    } else if map::in_range(address, map::RAM_BANK).is_some() {
        Region::CartridgeRam
    } else if map::in_range(address, map::IRAM).is_some() {
        Region::WorkRam
    } else if map::in_range(address, map::IRAM_ECHO).is_some() {
        Region::Echo
    } else if map::in_range(address, map::OAM).is_some() {
        Region::Oam
    } else if map::in_range(address, map::EMPTY_RAM).is_some() {
        Region::Unusable
    } else if map::in_range(address, map::IO).is_some() {
        Region::Io
    } else if address == map::UNMAP_BOOTROM {
        Region::BootromSwitch
    } else if address == map::WRAMBANK {
        Region::WorkRamBank
    } else if map::in_range(address, map::ZERO_PAGE).is_some() {
        Region::HighRam
    } else if address == map::IEN {
        Region::InterruptEnable
    } else {
        Region::Unmapped
    }
}

/// The interconnect, as mathematics.
pub struct InterconnectView {
    /// The cartridge.
    pub cartridge: CartridgeView,
    /// The boot program; empty if there is none.
    pub bootrom: Seq<u8>,
    /// Whether the boot program hides the first 256 bytes of the ROM.
    pub bootrom_mapped: bool,
    /// The work RAM.
    pub iram: Seq<u8>,
    /// The high RAM.
    pub zpage: Seq<u8>,
    /// The picture unit.
    pub gpu: GpuView,
    /// The timer.
    pub timer: Timer,
    /// The sound unit.
    pub sound: SoundView,
    /// The serial port.
    pub serial: Serial,
    /// The interrupt controller.
    pub irq: Irq,
    /// The joypad.
    pub joypad: Joypad,
    /// The speed of the processor.
    pub gbspeed: GbSpeed,
    /// Whether the next STOP switches the speed.
    pub speed_switch_req: bool,
    /// The work RAM bank register.
    pub wrambank: u8,
    /// The transfer into the object attribute memory.
    pub dma: Dma,
}

impl InterconnectView {
    /// The interconnect around a cartridge and a picture unit as the boot
    /// program leaves it: the cartridge visible from address 0, the RAMs
    /// filled with `RAM_FILL`, timer, serial port, joypad and interrupt
    /// controller cleared, the sound unit off, single speed, no transfer
    /// under way. Interrupts that the picture unit raised before are
    /// dropped.
    pub open spec fn spec_new(
        cartridge: CartridgeView,
        gpu: GpuView,
        samples_rate: u32,
    ) -> InterconnectView {
        InterconnectView {
            cartridge,
            bootrom: Seq::<u8>::empty(),
            bootrom_mapped: false,
            iram: Seq::new(IRAM_SIZE as nat, |i: int| ram::RAM_FILL),
            zpage: Seq::new(ZPAGE_SIZE as nat, |i: int| ram::RAM_FILL),
            gpu: GpuView { regs: crate::io::gpu::GPU { interrupt: 0, ..gpu.regs }, ..gpu },
            timer: Timer { internal: 0, counter: 0, modulo: 0, control: 0, interrupt: 0 },
            sound: SoundView::spec_new(samples_rate),
            serial: Serial { data: 0, control: 0 },
            irq: Irq { enabled: 0, flag: 0 },
            joypad: Joypad {
                directional: joypad::P1 { bits: 0 },
                button: joypad::P1 { bits: 0 },
                register: joypad::P1 { bits: 0 },
            },
            gbspeed: GbSpeed::Single,
            speed_switch_req: false,
            wrambank: 1,
            dma: Dma { kind: DMAType::OAM, src: 0, dst: 0, len: 0 },
        }
    }

    /// The invariant of the interconnect.
    pub open spec fn wf(self) -> bool {
        &&& self.cartridge.wf()
        &&& self.gpu.wf()
        &&& self.sound.wf()
        &&& self.iram.len() == IRAM_SIZE
        &&& self.zpage.len() == ZPAGE_SIZE
        &&& self.bootrom_mapped ==> self.bootrom.len() == BOOTROM_SIZE
        &&& self.dma.kind == DMAType::OAM
        &&& self.dma.dst + self.dma.len <= OAM_DMA_LENGTH
        &&& self.dma.src % 256 == 0
        &&& self.timer.interrupt == 0
        &&& self.gpu.regs.interrupt == 0
    }

    /// Whether a transfer into the object attribute memory is under way.
    pub open spec fn spec_dma_active(self) -> bool {
        self.dma.len != 0
    }

    /// What a read of the I/O register at `offset` from `0xff00` yields.
    #[verifier::opaque]
    pub open spec fn spec_read_io(self, offset: u16) -> u8 {
        if offset == 0x00 {
            self.joypad.spec_read()
        } else if offset == 0x01 || offset == 0x02 {
            self.serial.spec_read((0xff00 + offset) as u16)
        } else if 0x04 <= offset <= 0x07 {
            self.timer.spec_read((0xff00 + offset) as u16)
        } else if offset == 0x0f {
            self.irq.flag | irq::IF_UNUSED_MASK
        } else if 0x10 <= offset <= 0x3f {
            self.sound.spec_read(offset)
        } else if offset == 0x46 {
            (self.dma.src / 256) as u8
        } else if 0x40 <= offset <= 0x4b {
            self.gpu.regs.spec_read((0xff00 + offset) as u16)
        } else {
            0
        }
    }

    /// What the processor reads at `address`.
    #[verifier::opaque]
    pub open spec fn spec_read(self, address: u16) -> u8 {
        match spec_region(address) {
            Region::Rom => if self.bootrom_mapped && address < 0x100 {
                self.bootrom[address as int]
            } else {
                self.cartridge.spec_read_rom(address)
            },
            Region::CharacterRam => self.gpu.spec_read_character_ram((address - 0x8000) as u16),
            Region::TileMap1 => self.gpu.spec_read_tile_map1((address - 0x9800) as u16),
            Region::TileMap2 => self.gpu.spec_read_tile_map2((address - 0x9c00) as u16),
            Region::CartridgeRam => self.cartridge.spec_read_ram((address - 0xa000) as u16),
            Region::WorkRam => self.iram[address - 0xc000],
            Region::Echo => self.iram[address - 0xe000],
            Region::Oam => if self.spec_dma_active() {
                OPEN_BUS
            } else {
                self.gpu.spec_read_oam((address - 0xfe00) as u16)
            },
            Region::Unusable => 0,
            Region::Io => self.spec_read_io((address - 0xff00) as u16),
            Region::BootromSwitch => OPEN_BUS,
            Region::WorkRamBank => self.wrambank,
            Region::HighRam => self.zpage[address - 0xff80],
            Region::InterruptEnable => self.irq.enabled,
            Region::Unmapped => OPEN_BUS,
        }
    }

    /// The 16-bit word that the processor reads at `address`: low byte
    /// first; the address after `0xffff` is `0x0000`.
    pub open spec fn spec_read_word(self, address: u16) -> u16 {
        let next: u16 = if address == 0xffff { 0 } else { (address + 1) as u16 };
        (self.spec_read(address) as int + self.spec_read(next) as int * 256) as u16
    }

    /// The interconnect after a transfer from page `page` into the object
    /// attribute memory is started.
    pub open spec fn spec_start_dma(self, page: u8) -> InterconnectView {
        InterconnectView {
            dma: Dma { kind: DMAType::OAM, src: (page as int * 256) as u16, dst: 0, len: OAM_DMA_LENGTH },
            ..self
        }
    }

    /// The interconnect after `value` is written to the I/O register at
    /// `offset` from `0xff00`.
    #[verifier::opaque]
    pub open spec fn spec_write_io(self, offset: u16, value: u8) -> InterconnectView {
        if offset == 0x00 {
            InterconnectView { joypad: self.joypad.spec_write(value), ..self }
        } else if offset == 0x01 || offset == 0x02 {
            InterconnectView {
                serial: self.serial.spec_write((0xff00 + offset) as u16, value),
                ..self
            }
        } else if 0x04 <= offset <= 0x07 {
            InterconnectView {
                timer: self.timer.spec_write((0xff00 + offset) as u16, value),
                ..self
            }
        } else if offset == 0x0f {
            InterconnectView { irq: Irq { flag: value & irq::IRQ_MASK, ..self.irq }, ..self }
        } else if 0x10 <= offset <= 0x3f {
            InterconnectView { sound: self.sound.spec_write(offset, value), ..self }
        } else if offset == 0x46 {
            self.spec_start_dma(value)
        } else if 0x40 <= offset <= 0x4b {
            InterconnectView {
                gpu: self.gpu.spec_write_register((0xff00 + offset) as u16, value),
                ..self
            }
        } else {
            self
        }
    }

    /// The interconnect after the processor writes `value` at `address`.
    #[verifier::opaque]
    pub open spec fn spec_write(self, address: u16, value: u8) -> InterconnectView {
        match spec_region(address) {
            Region::Rom => if self.cartridge.model.mbc == Mbc::Mbc0 {
                self
            } else {
                InterconnectView { cartridge: self.cartridge.spec_write_rom(address, value), ..self }
            },
            Region::CharacterRam => InterconnectView {
                gpu: self.gpu.spec_write_character_ram((address - 0x8000) as u16, value),
                ..self
            },
            Region::TileMap1 => InterconnectView {
                gpu: self.gpu.spec_write_tile_map1((address - 0x9800) as u16, value),
                ..self
            },
            Region::TileMap2 => InterconnectView {
                gpu: self.gpu.spec_write_tile_map2((address - 0x9c00) as u16, value),
                ..self
            },
            Region::CartridgeRam => InterconnectView {
                cartridge: self.cartridge.spec_write_ram((address - 0xa000) as u16, value),
                ..self
            },
            Region::WorkRam => InterconnectView {
                iram: self.iram.update(address - 0xc000, value),
                ..self
            },
            Region::Echo => InterconnectView {
                iram: self.iram.update(address - 0xe000, value),
                ..self
            },
            Region::Oam => if self.spec_dma_active() {
                self
            } else {
                InterconnectView {
                    gpu: self.gpu.spec_write_oam((address - 0xfe00) as u16, value),
                    ..self
                }
            },
            Region::Unusable => self,
            Region::Io => self.spec_write_io((address - 0xff00) as u16, value),
            Region::BootromSwitch => InterconnectView { bootrom_mapped: false, ..self },
            Region::WorkRamBank => InterconnectView { wrambank: value, ..self },
            Region::HighRam => InterconnectView {
                zpage: self.zpage.update(address - 0xff80, value),
                ..self
            },
            Region::InterruptEnable => InterconnectView {
                irq: Irq { enabled: value, ..self.irq },
                ..self
            },
            Region::Unmapped => self,
        }
    }

    /// The interconnect after the processor writes the word `value` at
    /// `address`: low byte first.
    pub open spec fn spec_write_word(self, address: u16, value: u16) -> InterconnectView {
        let next: u16 = if address == 0xffff { 0 } else { (address + 1) as u16 };
        self.spec_write(address, (value % 256) as u8).spec_write(next, (value / 256) as u8)
    }

    /// The byte that a transfer copies from `address`. The transfer does
    /// not wait for the picture unit, and above the work RAM it finds the
    /// work RAM again.
    #[verifier::opaque]
    pub open spec fn spec_dma_source(self, address: u16) -> u8 {
        if address < 0x8000 {
            self.spec_read(address)
        } else if address < 0xa000 {
            self.gpu.spec_vram_raw((address - 0x8000) as u16)
        } else if address < 0xc000 {
            self.cartridge.spec_read_ram((address - 0xa000) as u16)
        } else if address < 0xe000 {
            self.iram[address - 0xc000]
        } else {
            self.iram[address - 0xe000]
        }
    }

    /// The interconnect after an active transfer copied its next byte.
    pub open spec fn spec_dma_step(self) -> InterconnectView {
        InterconnectView {
            gpu: self.gpu.spec_store_oam(
                self.dma.dst,
                self.spec_dma_source((self.dma.src + self.dma.dst) as u16),
            ),
            dma: Dma { dst: (self.dma.dst + 1) as u16, len: (self.dma.len - 1) as u8, ..self.dma },
            ..self
        }
    }

    /// The interconnect after the transfer had `n` machine cycles: it
    /// copies one byte in each until nothing is left.
    pub open spec fn spec_dma_run(self, n: nat) -> InterconnectView
        decreases n,
    {
        if n == 0 || !self.spec_dma_active() {
            self
        } else {
            self.spec_dma_step().spec_dma_run((n - 1) as nat)
        }
    }

    /// The machine cycles that the picture and sound units get for
    /// `ticks` machine cycles of the processor: all of them at single
    /// speed, half of them at double speed.
    pub open spec fn spec_gpu_ticks(self, ticks: u32) -> u32 {
        if self.gbspeed == GbSpeed::Double {
            ticks / 2
        } else {
            ticks
        }
    }

    /// The interconnect after the interrupt requests of `mask` are
    /// latched.
    pub open spec fn spec_latch(self, mask: u8) -> InterconnectView {
        InterconnectView { irq: self.irq.spec_request_mask(mask), ..self }
    }

    /// The interconnect after the peripherals had `ticks` machine cycles
    /// of the processor. The timer runs four clock ticks for each and its
    /// requests are latched; the transfer copies; the picture unit runs
    /// and its requests are latched; the sound unit runs.
    #[verifier::opaque]
    pub open spec fn spec_step(self, ticks: u32) -> InterconnectView {
        let timed = spec_run(self.timer, 4 * ticks as nat);
        let after_timer = (InterconnectView {
            timer: Timer { interrupt: 0, ..timed },
            ..self
        }).spec_latch(timed.interrupt);
        let after_dma = after_timer.spec_dma_run(ticks as nat);
        let gpu_ticks = self.spec_gpu_ticks(ticks);
        let drawn = after_dma.gpu.spec_run(gpu_ticks as nat);
        let after_gpu = (InterconnectView {
            gpu: GpuView { regs: crate::io::gpu::GPU { interrupt: 0, ..drawn.regs }, ..drawn },
            ..after_dma
        }).spec_latch(drawn.regs.interrupt);
        InterconnectView { sound: after_gpu.sound.spec_run(gpu_ticks as nat), ..after_gpu }
    }

    /// The interconnect after a STOP: the speed changes if a switch was
    /// requested, and the request is gone.
    pub open spec fn spec_switch_speed(self) -> InterconnectView {
        InterconnectView {
            gbspeed: if self.speed_switch_req {
                if self.gbspeed == GbSpeed::Double {
                    GbSpeed::Single
                } else {
                    GbSpeed::Double
                }
            } else {
                self.gbspeed
            },
            speed_switch_req: false,
            ..self
        }
    }
}

/// The interconnect.
pub struct Interconnect {
    cartridge: Cartridge,
    bootrom: Vec<u8>,
    bootrom_mapped: bool,
    irq: Irq,
    iram: Ram,
    zpage: Ram,
    gpu: Gpu,
    timer: Timer,
    sound: Sound,
    serial: Serial,
    gbspeed: GbSpeed,
    speed_switch_req: bool,
    wrambank: u8,
    joypad: Joypad,
    dma: Dma,
}

impl View for Interconnect {
    type V = InterconnectView;

    closed spec fn view(&self) -> InterconnectView {
        InterconnectView {
            cartridge: self.cartridge@,
            bootrom: self.bootrom@,
            bootrom_mapped: self.bootrom_mapped,
            iram: self.iram@,
            zpage: self.zpage@,
            gpu: self.gpu@,
            timer: self.timer,
            sound: self.sound@,
            serial: self.serial,
            irq: self.irq,
            joypad: self.joypad,
            gbspeed: self.gbspeed,
            speed_switch_req: self.speed_switch_req,
            wrambank: self.wrambank,
            dma: self.dma,
        }
    }
}

impl Interconnect {
    /// The invariant of the interconnect; the constructors establish it
    /// and every method keeps it.
    pub open spec fn wf(&self) -> bool {
        self@.wf()
    }

    /// The interconnect around `cartridge` and `gpu`, as the boot program
    /// leaves it, with the sound unit set for `samples_rate` samples per
    /// second.
    pub fn new(cartridge: Cartridge, gpu: Gpu, samples_rate: u32) -> (bus: Interconnect)
        requires
            cartridge.wf(),
            gpu.wf(),
        ensures
            bus.wf(),
            bus@ == InterconnectView::spec_new(cartridge@, gpu@, samples_rate),
            bus@.joypad.spec_read() == 0xff,
    {
        let iram = Ram::new(IRAM_SIZE);
        let zpage = Ram::new(ZPAGE_SIZE);
        assert(iram@ =~= Seq::new(IRAM_SIZE as nat, |i: int| ram::RAM_FILL));
        assert(zpage@ =~= Seq::new(ZPAGE_SIZE as nat, |i: int| ram::RAM_FILL));
        let joypad = Joypad::new();
        let mut gpu = gpu;
        let _ = gpu.take_interrupt();
        Interconnect {
            cartridge,
            bootrom: Vec::new(),
            bootrom_mapped: false,
            irq: Irq::new(),
            iram,
            zpage,
            gpu,
            timer: Timer::new(),
            sound: Sound::new(samples_rate),
            serial: Serial::new(),
            gbspeed: GbSpeed::Single,
            speed_switch_req: false,
            wrambank: 1,
            joypad,
            dma: Dma { kind: DMAType::OAM, src: 0, dst: 0, len: 0 },
        }
    }

    /// As `new`, but with the 256 bytes of `bootrom` in front of the
    /// cartridge until the program writes to `0xff50`.
    pub fn with_bootrom(cartridge: Cartridge, gpu: Gpu, samples_rate: u32, bootrom: Vec<u8>) -> (bus:
        Interconnect)
        requires
            cartridge.wf(),
            gpu.wf(),
            bootrom@.len() == BOOTROM_SIZE,
        ensures
            bus.wf(),
            bus@ == (InterconnectView {
                bootrom: bootrom@,
                bootrom_mapped: true,
                ..InterconnectView::spec_new(cartridge@, gpu@, samples_rate)
            }),
    {
        let mut bus = Interconnect::new(cartridge, gpu, samples_rate);
        bus.bootrom = bootrom;
        bus.bootrom_mapped = true;
        bus
    }

    /// Gives the peripherals `ticks` machine cycles of the processor and
    /// returns how many of them the picture unit got. The free-running
    /// counter of the timer counts four clock ticks for each; a running
    /// display moves on by its share of them in its frame, a display that
    /// is off stays where it is.
    pub fn do_cycle(&mut self, ticks: u32) -> (gpu_ticks: u32)
        requires
            old(self).wf(),
        ensures
            final(self).wf(),
            final(self)@ == old(self)@.spec_step(ticks),
            gpu_ticks == old(self)@.spec_gpu_ticks(ticks),
            final(self)@.timer.internal == (old(self)@.timer.internal + 4 * ticks) % 65536,
            final(self)@.gpu.regs.spec_lcd_on() == old(self)@.gpu.regs.spec_lcd_on(),
            old(self)@.gpu.regs.spec_lcd_on() ==> gpu::spec_position(final(self)@.gpu.regs) == (
            gpu::spec_position(old(self)@.gpu.regs) + gpu_ticks) % 17556,
            !old(self)@.gpu.regs.spec_lcd_on() ==> final(self)@.gpu.regs == old(self)@.gpu.regs,
    {
        proof {
            laws::lemma_step_moves_clocks(old(self)@, ticks);
        }
        self.step_peripherals(ticks)
    }

    /// Runs the timer, the transfer, the picture unit and the sound unit,
    /// and latches the interrupts that they request.
    fn step_peripherals(&mut self, ticks: u32) -> (gpu_ticks: u32)
        requires
            old(self).wf(),
        ensures
            final(self).wf(),
            final(self)@ == old(self)@.spec_step(ticks),
            gpu_ticks == old(self)@.spec_gpu_ticks(ticks),
    {
        proof {
            reveal(InterconnectView::spec_step);
        }
        let cpudivider: u32 = match self.gbspeed {
            GbSpeed::Single => 1,
            GbSpeed::Double => 2,
        };
        let vramticks = self.perform_vramdma();
        let gputicks = ticks / cpudivider + vramticks;
        self.timer.do_cycle(ticks);
        let fired = self.timer.take_interrupt();
        self.irq.request_mask(fired);
        self.perform_oam_dma(ticks);
        self.gpu.do_cycle(gputicks);
        let raised = self.gpu.take_interrupt();
        self.irq.request_mask(raised);
        self.sound.do_cycle(gputicks);
        gputicks
    }

    /// The machine cycles that transfers into video RAM take out of this
    /// step: none, for no register of the address space starts one.
    fn perform_vramdma(&self) -> (ticks: u32)
        ensures
            ticks == 0,
    {
        0
    }

    /// The byte that a transfer copies from `address`.
    fn dma_source(&self, address: u16) -> (v: u8)
        requires
            self.wf(),
        ensures
            v == self@.spec_dma_source(address),
    {
        proof {
            reveal(InterconnectView::spec_dma_source);
        }
        if address < 0x8000 {
            self.read_byte(address)
        } else if address < 0xa000 {
            self.gpu.vram_raw(address - 0x8000)
        } else if address < 0xc000 {
            self.cartridge.ram_byte(address - 0xa000)
        } else if address < 0xe000 {
            self.iram.byte(address - 0xc000)
        } else {
            self.iram.byte(address - 0xe000)
        }
    }

    /// Lets the transfer into the object attribute memory run for `ticks`
    /// machine cycles.
    fn perform_oam_dma(&mut self, ticks: u32)
        requires
            old(self).wf(),
        ensures
            final(self).wf(),
            final(self)@ == old(self)@.spec_dma_run(ticks as nat),
    {
        let mut left: u32 = ticks;
        while left > 0 && self.dma.len != 0
            invariant
                self.wf(),
                self@.spec_dma_run(left as nat) == old(self)@.spec_dma_run(ticks as nat),
            decreases left,
        {
            let byte = self.dma_source(self.dma.src + self.dma.dst);
            self.gpu.store_oam(self.dma.dst, byte);
            self.dma.dst = self.dma.dst + 1;
            self.dma.len = self.dma.len - 1;
            left -= 1;
        }
    }

    /// Takes a STOP: the speed changes if a switch was requested.
    pub fn switch_speed(&mut self)
        ensures
            old(self).wf() ==> final(self).wf(),
            final(self)@ == old(self)@.spec_switch_speed(),
    {
        if self.speed_switch_req {
            if self.gbspeed == GbSpeed::Double {
                self.gbspeed = GbSpeed::Single;
            } else {
                self.gbspeed = GbSpeed::Double;
            }
        }
        self.speed_switch_req = false;
    }

    /// Asks for a change of speed at the next STOP.
    pub fn request_speed_switch(&mut self)
        ensures
            old(self).wf() ==> final(self).wf(),
            final(self)@ == (InterconnectView { speed_switch_req: true, ..old(self)@ }),
    {
        self.speed_switch_req = true;
    }

    /// The speed of the processor.
    pub fn speed(&self) -> (s: GbSpeed)
        ensures
            s == self@.gbspeed,
    {
        self.gbspeed
    }

    /// Reads the byte at `address` as the processor sees it.
    pub fn read_byte(&self, address: u16) -> (v: u8)
        requires
            self.wf(),
        ensures
            v == self@.spec_read(address),
    {
        proof {
            reveal(InterconnectView::spec_read);
        }
        if let Some(off) = map::in_range(address, map::ROM) {
            if self.bootrom_mapped && off < 0x100 {
                return self.bootrom[off as usize];
            }
            return self.cartridge.read_byte(off);
        }
        if let Some(off) = map::in_range(address, map::CHAR_RAM) {
            return self.gpu.read_character_ram(off);
        }
        if let Some(off) = map::in_range(address, map::V_TILE_MAP1) {
            return self.gpu.read_tile_map1(off);
        }
        if let Some(off) = map::in_range(address, map::V_TILE_MAP2) {
            return self.gpu.read_tile_map2(off);
        }
        if let Some(off) = map::in_range(address, map::RAM_BANK) {
            return self.cartridge.ram_byte(off);
        }
        if let Some(off) = map::in_range(address, map::IRAM) {
            return self.iram.byte(off);
        }
        if let Some(off) = map::in_range(address, map::IRAM_ECHO) {
            return self.iram.byte(off);
        }
        if let Some(off) = map::in_range(address, map::OAM) {
            return if self.dma.len != 0 {
                OPEN_BUS
            } else {
                self.gpu.read_oam(off)
            };
        }
        if map::in_range(address, map::EMPTY_RAM).is_some() {
            return 0;
        }
        if let Some(off) = map::in_range(address, map::IO) {
            return self.read_io(off);
        }
        if address == map::WRAMBANK {
            return self.wrambank;
        }
        if let Some(off) = map::in_range(address, map::ZERO_PAGE) {
            return self.zpage.byte(off);
        }
        if address == map::IEN {
            return self.irq.get_interrupt_enabled();
        }
        OPEN_BUS
    }

    /// Reads the word at `address`, low byte first.
    pub fn read_word(&self, addr: u16) -> (w: u16)
        requires
            self.wf(),
        ensures
            w == self@.spec_read_word(addr),
    {
        let low = self.read_byte(addr);
        let high = self.read_byte(addr.wrapping_add(1));
        (low as u16) + (high as u16) * 256
    }

    /// Writes `value` at `address` as the processor does.
    pub fn write_byte(&mut self, address: u16, value: u8)
        requires
            old(self).wf(),
        ensures
            final(self).wf(),
            final(self)@ == old(self)@.spec_write(address, value),
    {
        proof {
            reveal(InterconnectView::spec_write);
        }
        if let Some(off) = map::in_range(address, map::ROM) {
            if self.cartridge.model().mbc != Mbc::Mbc0 {
                self.cartridge.set_rom_byte(off, value);
            }
            return ;
        }
        if let Some(off) = map::in_range(address, map::CHAR_RAM) {
            self.gpu.write_character_ram(off, value);
            return ;
        }
        if let Some(off) = map::in_range(address, map::V_TILE_MAP1) {
            self.gpu.write_tile_map1(off, value);
            return ;
        }
        if let Some(off) = map::in_range(address, map::V_TILE_MAP2) {
            self.gpu.write_tile_map2(off, value);
            return ;
        }
        if let Some(off) = map::in_range(address, map::RAM_BANK) {
            self.cartridge.set_ram_byte(off, value);
            return ;
        }
        if let Some(off) = map::in_range(address, map::IRAM) {
            self.iram.set_byte(off, value);
            return ;
        }
        if let Some(off) = map::in_range(address, map::IRAM_ECHO) {
            self.iram.set_byte(off, value);
            return ;
        }
        if let Some(off) = map::in_range(address, map::OAM) {
            if self.dma.len == 0 {
                self.gpu.write_oam(off, value);
            }
            return ;
        }
        if map::in_range(address, map::EMPTY_RAM).is_some() {
            return ;
        }
        if let Some(off) = map::in_range(address, map::IO) {
            self.write_io(off, value);
            return ;
        }
        if address == map::UNMAP_BOOTROM {
            self.bootrom_mapped = false;
            return ;
        }
        if address == map::WRAMBANK {
            self.wrambank = value;
            return ;
        }
        if let Some(off) = map::in_range(address, map::ZERO_PAGE) {
            self.zpage.set_byte(off, value);
            return ;
        }
        if address == map::IEN {
            self.irq.set_interrupt_enabled(value);
            return ;
        }
    }

    /// Writes the word `value` at `address`, low byte first.
    pub fn write_word(&mut self, addr: u16, value: u16)
        requires
            old(self).wf(),
        ensures
            final(self).wf(),
            final(self)@ == old(self)@.spec_write_word(addr, value),
    {
        self.write_byte(addr, (value % 256) as u8);
        self.write_byte(addr.wrapping_add(1), (value / 256) as u8);
    }

    /// Reads the I/O register at `address`, an offset from `0xff00`.
    fn read_io(&self, address: u16) -> (v: u8)
        requires
            self.wf(),
            address <= 0x4b,
        ensures
            v == self@.spec_read_io(address),
    {
        proof {
            reveal(InterconnectView::spec_read_io);
        }
        if address == io_map::INPUT {
            self.joypad.get_register()
        } else if address == io_map::SB || address == io_map::SC {
            self.serial.read_byte(0xff00 + address)
        } else if io_map::DIV <= address && address <= io_map::TAC {
            self.timer.read_byte(0xff00 + address)
        } else if address == io_map::IF {
            self.irq.get_interrupt_flag()
        } else if io_map::NR10 <= address && address <= io_map::NR3_RAM_END {
            self.sound.read_byte(address)
        } else if address == io_map::DMA {
            (self.dma.src / 256) as u8
        } else if io_map::LCDC <= address && address <= io_map::LCD_WX {
            self.gpu.read_byte(0xff00 + address)
        } else {
            0
        }
    }

    /// Writes the I/O register at `address`, an offset from `0xff00`.
    fn write_io(&mut self, address: u16, value: u8)
        requires
            old(self).wf(),
            address <= 0x4b,
        ensures
            final(self).wf(),
            final(self)@ == old(self)@.spec_write_io(address, value),
    {
        proof {
            reveal(InterconnectView::spec_write_io);
        }
        if address == io_map::INPUT {
            self.joypad.set_register(value);
        } else if address == io_map::SB || address == io_map::SC {
            self.serial.write_byte(0xff00 + address, value);
        } else if io_map::DIV <= address && address <= io_map::TAC {
            self.timer.write_byte(0xff00 + address, value);
        } else if address == io_map::IF {
            self.irq.set_interrupt_flag(value);
        } else if io_map::NR10 <= address && address <= io_map::NR3_RAM_END {
            self.sound.write_byte(address, value);
        } else if address == io_map::DMA {
            self.dma = Dma {
                kind: DMAType::OAM,
                src: (value as u16) * 256,
                dst: 0,
                len: OAM_DMA_LENGTH,
            };
        } else if io_map::LCDC <= address && address <= io_map::LCD_WX {
            self.gpu.write_byte(0xff00 + address, value);
        }
    }

    /// The last complete frame.
    pub fn screen_buffer(&self) -> (frame: &ScreenBuffer)
        ensures
            frame@ == self@.gpu.front_buffer,
    {
        self.gpu.screen_buffer()
    }

    /// Whether the picture unit completed a frame since the last call.
    pub fn take_frame_ready(&mut self) -> (ready: bool)
        ensures
            old(self).wf() ==> final(self).wf(),
            ready == old(self)@.gpu.frame_ready,
            final(self)@ == (InterconnectView {
                gpu: GpuView { frame_ready: false, ..old(self)@.gpu },
                ..old(self)@
            }),
    {
        self.gpu.take_frame_ready()
    }

    /// The interrupt controller.
    pub fn irq(&self) -> (irq: Irq)
        ensures
            irq == self@.irq,
    {
        self.irq
    }

    /// Latches an interrupt request.
    pub fn irq_request(&mut self, kind: Interrupt)
        ensures
            old(self).wf() ==> final(self).wf(),
            final(self)@ == old(self)@.spec_latch(kind.spec_mask()),
    {
        self.irq.request(kind);
    }

    /// Withdraws the request of `kind`, as the processor does when it
    /// serves it.
    pub fn irq_acknowledge(&mut self, kind: Interrupt)
        ensures
            old(self).wf() ==> final(self).wf(),
            final(self)@ == (InterconnectView {
                irq: old(self)@.irq.spec_acknowledge(kind),
                ..old(self)@
            }),
    {
        self.irq.acknowledge(kind);
    }

    /// Records that `key` went down.
    pub fn key_down(&mut self, key: GbKey)
        ensures
            old(self).wf() ==> final(self).wf(),
            final(self)@ == (InterconnectView {
                joypad: old(self)@.joypad.spec_press(key),
                ..old(self)@
            }),
    {
        self.joypad.press(key);
    }

    /// Records that `key` went up.
    pub fn key_up(&mut self, key: GbKey)
        ensures
            old(self).wf() ==> final(self).wf(),
            final(self)@ == (InterconnectView {
                joypad: old(self)@.joypad.spec_release(key),
                ..old(self)@
            }),
    {
        self.joypad.release(key);
    }

    /// Hands the waiting sound samples to the host, left output first.
    pub fn take_samples(&mut self) -> (out: (Vec<i32>, Vec<i32>))
        requires
            old(self).wf(),
        ensures
            final(self).wf(),
            out.0@ == old(self)@.sound.left,
            out.1@ == old(self)@.sound.right,
            out.0@.len() == out.1@.len(),
            crate::sound::spec_all_in_range(out.0@),
            crate::sound::spec_all_in_range(out.1@),
            final(self)@ == (InterconnectView {
                sound: SoundView {
                    left: Seq::<i32>::empty(),
                    right: Seq::<i32>::empty(),
                    ..old(self)@.sound
                },
                ..old(self)@
            }),
    {
        self.sound.take_samples()
    }

    /// The RAM of the cartridge, for the host to persist.
    pub fn cartridge_ram(&self) -> (image: &Vec<u8>)
        ensures
            image@ == self@.cartridge.ram,
    {
        self.cartridge.ram_image()
    }
}

} // verus!
