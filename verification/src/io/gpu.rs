//! The registers of the picture unit and the state machine that walks
//! through the scanlines.

use vstd::prelude::*;
use crate::gpu::types::Color;

verus! {

/// LCDC: the background is shown.
pub const BG_ON: u8 = 0x01;
/// LCDC: objects are shown.
pub const OBJ_ON: u8 = 0x02;
/// LCDC: objects are 16 rows high, not 8.
pub const OBJ_SIZE: u8 = 0x04;
/// LCDC: the background uses the second tile map.
pub const BG_MAP: u8 = 0x08;
/// LCDC: tiles are numbered from `0x8000` up, not around `0x9000`.
pub const BG_ADDR: u8 = 0x10;
/// LCDC: the window is shown.
pub const WINDOW_ON: u8 = 0x20;
/// LCDC: the window uses the second tile map.
pub const WINDOW_MAP: u8 = 0x40;
/// LCDC: the display is on.
pub const LCD_ON: u8 = 0x80;

/// STAT: the line equals the compare line.
pub const COMPARE: u8 = 0x04;
/// STAT: request an interrupt on entering the horizontal blank.
pub const HBLANK_INT: u8 = 0x08;
/// STAT: request an interrupt on entering the vertical blank.
pub const VBLANK_INT: u8 = 0x10;
/// STAT: request an interrupt on entering the OAM search.
pub const ACCESS_OAM_INT: u8 = 0x20;
/// STAT: request an interrupt when the line equals the compare line.
pub const COMPARE_INT: u8 = 0x40;
/// STAT: the bits that a write can change.
pub const STAT_WRITABLE: u8 = 0x78;

/// The bit of `IF` for the vertical blank.
pub const IRQ_VBLANK: u8 = 0x01;
/// The bit of `IF` for the LCD status.
pub const IRQ_LCD_STAT: u8 = 0x02;

/// Machine cycles of the OAM search at the start of a visible line.
pub const ACCESS_OAM_CYCLES: u16 = 20;
/// Machine cycles of the pixel transfer that follows.
pub const ACCESS_VRAM_CYCLES: u16 = 43;
/// Machine cycles of the horizontal blank that ends a visible line.
pub const HBLANK_CYCLES: u16 = 51;
/// Machine cycles of a line.
pub const LINE_CYCLES: u16 = 114;
/// The first line of the vertical blank.
pub const VBLANK_LINE: u8 = 144;
/// The number of lines of a frame, the vertical blank included.
pub const FRAME_LINES: u8 = 154;

/// The four phases of the picture unit.
#[derive(Debug, Copy, Clone, PartialEq, Eq, Structural)]
pub enum Mode {
    /// Searching the object attribute memory, which the program cannot
    /// reach meanwhile.
    AccessOam,
    /// Transferring pixels; the program can reach neither the video RAM
    /// nor the object attribute memory.
    AccessVram,
    /// Between two lines.
    HBlank,
    /// Between two frames.
    VBlank,
}

impl Mode {
    /// The number of the phase in the low bits of STAT.
    pub open spec fn spec_bits(self) -> u8 {
        match self {
            Mode::HBlank => 0,
            Mode::VBlank => 1,
            Mode::AccessOam => 2,
            Mode::AccessVram => 3,
        }
    }

    /// The number of the phase in the low bits of STAT.
    pub fn bits(&self) -> (b: u8)
        ensures
            b == self.spec_bits(),
    {
        match *self {
            Mode::HBlank => 0,
            Mode::VBlank => 1,
            Mode::AccessOam => 2,
            Mode::AccessVram => 3,
        }
    }
}

/// A palette register: which shade each of the four pixel values shows.
#[derive(Debug, Copy, Clone, PartialEq, Eq, Structural)]
pub struct Palette {
    /// The shade shown for the pixel value 0.
    pub off: Color,
    /// The shade shown for the pixel value 1.
    pub light: Color,
    /// The shade shown for the pixel value 2.
    pub dark: Color,
    /// The shade shown for the pixel value 3.
    pub on: Color,
    /// The register as written.
    pub bits: u8,
}

impl Palette {
    /// The palette that the register value `value` describes: two bits for
    /// each pixel value, value 0 in the lowest.
    pub open spec fn spec_of(value: u8) -> Palette {
        Palette {
            off: Color::spec_from_u8(value & 0x3),
            light: Color::spec_from_u8((value >> 2) & 0x3),
            dark: Color::spec_from_u8((value >> 4) & 0x3),
            on: Color::spec_from_u8((value >> 6) & 0x3),
            bits: value,
        }
    }

    /// The shade that the palette shows for the pixel value `color`.
    pub open spec fn spec_get(self, color: Color) -> Color {
        match color {
            Color::Off => self.off,
            Color::Light => self.light,
            Color::Dark => self.dark,
            Color::On => self.on,
        }
    }

    /// The palette of the register value `0xff`: every pixel value shows
    /// `On`.
    pub fn new() -> (p: Palette)
        ensures
            p == (Palette {
                off: Color::On,
                light: Color::On,
                dark: Color::On,
                on: Color::On,
                bits: 0xff,
            }),
    {
        Palette { off: Color::On, light: Color::On, dark: Color::On, on: Color::On, bits: 0xff }
    }

    /// Takes the register value `value`.
    pub fn set_bits(&mut self, value: u8)
        ensures
            *final(self) == Palette::spec_of(value),
    {
        self.off = Color::from_u8(value & 0x3);
        self.light = Color::from_u8((value >> 2) & 0x3);
        self.dark = Color::from_u8((value >> 4) & 0x3);
        self.on = Color::from_u8((value >> 6) & 0x3);
        self.bits = value;
    }

    /// The shade shown for the pixel value `color`.
    pub fn get(&self, color: &Color) -> (c: Color)
        ensures
            c == self.spec_get(*color),
    {
        match *color {
            Color::Off => self.off,
            Color::Light => self.light,
            Color::Dark => self.dark,
            Color::On => self.on,
        }
    }
}

/// What the memory side of the picture unit has to do after a machine
/// cycle.
#[derive(Debug, Copy, Clone, PartialEq, Eq, Structural)]
pub enum LcdEvent {
    /// Nothing.
    Idle,
    /// The pixel transfer of the current line ended: the line is drawn.
    DrawLine,
    /// The last visible line ended: the frame is complete.
    FrameDone,
}

/// The registers and the timing state of the picture unit.
#[derive(Debug, Copy, Clone, PartialEq, Eq, Structural)]
pub struct GPU {
    /// LCDC, the control register.
    pub control: u8,
    /// The interrupt selection bits of STAT.
    pub status: u8,
    /// SCY.
    pub scy: u8,
    /// SCX.
    pub scx: u8,
    /// LY, the current line, 0 to 153.
    pub ly: u8,
    /// LYC, the compare line.
    pub lyc: u8,
    /// WY.
    pub wy: u8,
    /// WX.
    pub wx: u8,
    /// BGP.
    pub bgp: Palette,
    /// OBP0.
    pub obp0: Palette,
    /// OBP1.
    pub obp1: Palette,
    /// The phase.
    pub mode: Mode,
    /// Machine cycles spent in the current line, 0 to 113.
    pub cycles: u16,
    /// The number of window lines drawn in this frame.
    pub window_line: u8,
    /// The interrupt requests raised since they were last collected.
    pub interrupt: u8,
    /// The selected bank of video RAM.
    pub vrambank: u8,
}

/// The phase of a running display at `cycles` into line `ly`.
pub open spec fn spec_mode_at(ly: u8, cycles: u16) -> Mode {
    if ly >= VBLANK_LINE {
        Mode::VBlank
    } else if cycles < ACCESS_OAM_CYCLES {
        Mode::AccessOam
    } else if cycles < ACCESS_OAM_CYCLES + ACCESS_VRAM_CYCLES {
        Mode::AccessVram
    } else {
        Mode::HBlank
    }
}

/// `interrupt` with a request for LCD status added if `wanted`.
pub open spec fn spec_with_stat(interrupt: u8, wanted: bool) -> u8 {
    if wanted {
        interrupt | IRQ_LCD_STAT
    } else {
        interrupt
    }
}

impl GPU {
    /// Whether the display is on.
    pub open spec fn spec_lcd_on(self) -> bool {
        self.control & LCD_ON != 0
    }

    /// The invariant: a running display is in the phase that its line and
    /// cycle count give; a display that is off rests at line 0 in the
    /// horizontal blank.
    pub open spec fn wf(self) -> bool {
        if self.spec_lcd_on() {
            &&& self.ly < FRAME_LINES
            &&& self.cycles < LINE_CYCLES
            &&& self.mode == spec_mode_at(self.ly, self.cycles)
        } else {
            &&& self.ly == 0
            &&& self.cycles == 0
            &&& self.mode == Mode::HBlank
            &&& self.window_line == 0
        }
    }

    /// The registers at power-on: the display off, every palette `0xff`.
    pub open spec fn spec_new() -> GPU {
        GPU {
            control: 0,
            status: 0,
            scy: 0,
            scx: 0,
            ly: 0,
            lyc: 0,
            wy: 0,
            wx: 0,
            bgp: Palette::spec_of(0xff),
            obp0: Palette::spec_of(0xff),
            obp1: Palette::spec_of(0xff),
            mode: Mode::HBlank,
            cycles: 0,
            window_line: 0,
            interrupt: 0,
            vrambank: 0,
        }
    }

    /// What STAT reads as: bit 7 set, the interrupt selection, the compare
    /// flag, the phase.
    pub open spec fn spec_stat(self) -> u8 {
        0x80 | (self.status & STAT_WRITABLE) | (if self.ly == self.lyc { COMPARE } else { 0 })
            | self.mode.spec_bits()
    }

    /// What a read of the register at `address` yields.
    pub open spec fn spec_read(self, address: u16) -> u8 {
        if address == 0xff40 {
            self.control
        } else if address == 0xff41 {
            self.spec_stat()
        } else if address == 0xff42 {
            self.scy
        } else if address == 0xff43 {
            self.scx
        } else if address == 0xff44 {
            self.ly
        } else if address == 0xff45 {
            self.lyc
        } else if address == 0xff47 {
            self.bgp.bits
        } else if address == 0xff48 {
            self.obp0.bits
        } else if address == 0xff49 {
            self.obp1.bits
        } else if address == 0xff4a {
            self.wy
        } else {
            self.wx
        }
    }

    /// The registers after `value` is written to LCDC. Switching the
    /// display off puts it at line 0 in the horizontal blank; switching it
    /// on starts the OAM search of line 0.
    pub open spec fn spec_write_control(self, value: u8) -> GPU {
        let was_on = self.spec_lcd_on();
        let on = value & LCD_ON != 0;
        if was_on && !on {
            GPU { control: value, ly: 0, cycles: 0, mode: Mode::HBlank, window_line: 0, ..self }
        } else if !was_on && on {
            GPU { control: value, ly: 0, cycles: 0, mode: Mode::AccessOam, window_line: 0, ..self }
        } else {
            GPU { control: value, ..self }
        }
    }

    /// The registers after `value` is written to the register at
    /// `address`. LY cannot be written.
    pub open spec fn spec_write(self, address: u16, value: u8) -> GPU {
        if address == 0xff40 {
            self.spec_write_control(value)
        } else if address == 0xff41 {
            GPU { status: value & STAT_WRITABLE, ..self }
        } else if address == 0xff42 {
            GPU { scy: value, ..self }
        } else if address == 0xff43 {
            GPU { scx: value, ..self }
        } else if address == 0xff44 {
            self
        } else if address == 0xff45 {
            GPU { lyc: value, ..self }
        } else if address == 0xff47 {
            GPU { bgp: Palette::spec_of(value), ..self }
        } else if address == 0xff48 {
            GPU { obp0: Palette::spec_of(value), ..self }
        } else if address == 0xff49 {
            GPU { obp1: Palette::spec_of(value), ..self }
        } else if address == 0xff4a {
            GPU { wy: value, ..self }
        } else {
            GPU { wx: value, ..self }
        }
    }

    /// Whether the window is drawn on the current line.
    pub open spec fn spec_window_visible(self) -> bool {
        self.control & WINDOW_ON != 0 && self.wy <= self.ly
            && self.wx <= 166
    }

    /// What the memory side has to do after the next machine cycle.
    pub open spec fn spec_event(self) -> LcdEvent {
        if !self.spec_lcd_on() {
            LcdEvent::Idle
        } else if self.ly < VBLANK_LINE && self.cycles + 1 == ACCESS_OAM_CYCLES
            + ACCESS_VRAM_CYCLES {
            LcdEvent::DrawLine
        } else if self.ly == VBLANK_LINE - 1 && self.cycles + 1 == LINE_CYCLES {
            LcdEvent::FrameDone
        } else {
            LcdEvent::Idle
        }
    }

    /// The registers at the start of the line after the current one.
    pub open spec fn spec_next_line(self) -> GPU {
        let ly: u8 = if self.ly + 1 == FRAME_LINES { 0 } else { (self.ly + 1) as u8 };
        let compare = ly == self.lyc && self.status & COMPARE_INT != 0;
        if ly == VBLANK_LINE {
            GPU {
                ly,
                cycles: 0,
                mode: Mode::VBlank,
                interrupt: spec_with_stat(
                    spec_with_stat(self.interrupt | IRQ_VBLANK, self.status & VBLANK_INT != 0),
                    compare,
                ),
                ..self
            }
        } else if ly < VBLANK_LINE {
            GPU {
                ly,
                cycles: 0,
                mode: Mode::AccessOam,
                window_line: if ly == 0 { 0 } else { self.window_line },
                interrupt: spec_with_stat(
                    spec_with_stat(self.interrupt, self.status & ACCESS_OAM_INT != 0),
                    compare,
                ),
                ..self
            }
        } else {
            GPU { ly, cycles: 0, interrupt: spec_with_stat(self.interrupt, compare), ..self }
        }
    }

    /// The registers one machine cycle later. A display that is off does
    /// not move.
    pub open spec fn spec_tick(self) -> GPU {
        if !self.spec_lcd_on() {
            self
        } else if self.cycles + 1 >= LINE_CYCLES {
            self.spec_next_line()
        } else if self.ly >= VBLANK_LINE {
            GPU { cycles: (self.cycles + 1) as u16, ..self }
        } else if self.cycles + 1 == ACCESS_OAM_CYCLES {
            GPU { cycles: (self.cycles + 1) as u16, mode: Mode::AccessVram, ..self }
        } else if self.cycles + 1 == ACCESS_OAM_CYCLES + ACCESS_VRAM_CYCLES {
            GPU {
                cycles: (self.cycles + 1) as u16,
                mode: Mode::HBlank,
                window_line: if self.spec_window_visible() && self.window_line < 255 {
                    (self.window_line + 1) as u8
                } else {
                    self.window_line
                },
                interrupt: spec_with_stat(self.interrupt, self.status & HBLANK_INT != 0),
                ..self
            }
        } else {
            GPU { cycles: (self.cycles + 1) as u16, ..self }
        }
    }

    /// The registers at power-on.
    pub fn new() -> (g: GPU)
        ensures
            g == GPU::spec_new(),
            g.wf(),
    {
        let mut p = Palette::new();
        p.set_bits(0xff);
        let g = GPU {
            control: 0,
            status: 0,
            scy: 0,
            scx: 0,
            ly: 0,
            lyc: 0,
            wy: 0,
            wx: 0,
            bgp: p,
            obp0: p,
            obp1: p,
            mode: Mode::HBlank,
            cycles: 0,
            window_line: 0,
            interrupt: 0,
            vrambank: 0,
        };
        assert(0u8 & LCD_ON == 0) by (bit_vector);
        g
    }

    /// Whether the display is on.
    pub fn lcd_on(&self) -> (on: bool)
        ensures
            on == self.spec_lcd_on(),
    {
        self.control & LCD_ON != 0
    }

    /// Reads the register at `address`: `0xff40..=0xff4b` but for
    /// `0xff46`, which belongs to the interconnect.
    pub fn read_byte(&self, address: u16) -> (v: u8)
        requires
            0xff40 <= address <= 0xff4b,
            address != 0xff46,
        ensures
            v == self.spec_read(address),
    {
        match address {
            0xff40 => self.control,
            0xff41 => {
                let compare: u8 = if self.ly == self.lyc {
                    COMPARE
                } else {
                    0
                };
                0x80 | (self.status & STAT_WRITABLE) | compare | self.mode.bits()
            },
            0xff42 => self.scy,
            0xff43 => self.scx,
            0xff44 => self.ly,
            0xff45 => self.lyc,
            0xff47 => self.bgp.bits,
            0xff48 => self.obp0.bits,
            0xff49 => self.obp1.bits,
            0xff4a => self.wy,
            _ => self.wx,
        }
    }

    /// Writes the register at `address`: `0xff40..=0xff4b` but for
    /// `0xff46`.
    pub fn write_byte(&mut self, address: u16, value: u8)
        requires
            old(self).wf(),
            0xff40 <= address <= 0xff4b,
            address != 0xff46,
        ensures
            final(self).wf(),
            *final(self) == old(self).spec_write(address, value),
    {
        match address {
            0xff40 => {
                let was_on = self.lcd_on();
                let on = value & LCD_ON != 0;
                self.control = value;
                if was_on && !on {
                    self.ly = 0;
                    self.cycles = 0;
                    self.mode = Mode::HBlank;
                    self.window_line = 0;
                } else if !was_on && on {
                    self.ly = 0;
                    self.cycles = 0;
                    self.mode = Mode::AccessOam;
                    self.window_line = 0;
                }
            },
            0xff41 => {
                self.status = value & STAT_WRITABLE;
            },
            0xff42 => {
                self.scy = value;
            },
            0xff43 => {
                self.scx = value;
            },
            0xff44 => {},
            0xff45 => {
                self.lyc = value;
            },
            0xff47 => {
                self.bgp.set_bits(value);
            },
            0xff48 => {
                self.obp0.set_bits(value);
            },
            0xff49 => {
                self.obp1.set_bits(value);
            },
            0xff4a => {
                self.wy = value;
            },
            _ => {
                self.wx = value;
            },
        }
    }

    /// Whether the window is drawn on the current line.
    pub fn window_visible(&self) -> (v: bool)
        ensures
            v == self.spec_window_visible(),
    {
        self.control & WINDOW_ON != 0 && self.wy <= self.ly
            && self.wx <= 166
    }

    /// Adds a request for LCD status if `wanted`.
    fn request_stat(&mut self, wanted: bool)
        ensures
            *final(self) == (GPU {
                interrupt: spec_with_stat(old(self).interrupt, wanted),
                ..*old(self)
            }),
    {
        if wanted {
            self.interrupt = self.interrupt | IRQ_LCD_STAT;
        }
    }

    /// Starts the line after the current one.
    fn next_line(&mut self)
        requires
            old(self).wf(),
            old(self).spec_lcd_on(),
        ensures
            final(self).wf(),
            *final(self) == old(self).spec_next_line(),
    {
        let ly: u8 = if self.ly + 1 == FRAME_LINES {
            0
        } else {
            self.ly + 1
        };
        let compare = ly == self.lyc && self.status & COMPARE_INT != 0;
        self.ly = ly;
        self.cycles = 0;
        if ly == VBLANK_LINE {
            self.mode = Mode::VBlank;
            self.interrupt = self.interrupt | IRQ_VBLANK;
            let wanted = self.status & VBLANK_INT != 0;
            self.request_stat(wanted);
        } else if ly < VBLANK_LINE {
            self.mode = Mode::AccessOam;
            if ly == 0 {
                self.window_line = 0;
            }
            let wanted = self.status & ACCESS_OAM_INT != 0;
            self.request_stat(wanted);
        }
        self.request_stat(compare);
    }

    /// Advances the display by one machine cycle and says what the memory
    /// side has to do: draw the current line, which must happen before the
    /// registers move, or publish the frame.
    pub fn tick(&mut self) -> (event: LcdEvent)
        requires
            old(self).wf(),
        ensures
            final(self).wf(),
            *final(self) == old(self).spec_tick(),
            event == old(self).spec_event(),
    {
        if !self.lcd_on() {
            return LcdEvent::Idle;
        }
        let next = self.cycles + 1;
        if next >= LINE_CYCLES {
            let done = self.ly == VBLANK_LINE - 1;
            self.next_line();
            if done {
                LcdEvent::FrameDone
            } else {
                LcdEvent::Idle
            }
        } else if self.ly >= VBLANK_LINE {
            self.cycles = next;
            LcdEvent::Idle
        } else if next == ACCESS_OAM_CYCLES {
            self.cycles = next;
            self.mode = Mode::AccessVram;
            LcdEvent::Idle
        } else if next == ACCESS_OAM_CYCLES + ACCESS_VRAM_CYCLES {
            let visible = self.window_visible();
            self.cycles = next;
            self.mode = Mode::HBlank;
            if visible && self.window_line < 255 {
                self.window_line = self.window_line + 1;
            }
            let wanted = self.status & HBLANK_INT != 0;
            self.request_stat(wanted);
            LcdEvent::DrawLine
        } else {
            self.cycles = next;
            LcdEvent::Idle
        }
    }

    /// Hands over the interrupt requests raised since the last call.
    pub fn take_interrupt(&mut self) -> (mask: u8)
        ensures
            mask == old(self).interrupt,
            *final(self) == (GPU { interrupt: 0, ..*old(self) }),
    {
        let mask = self.interrupt;
        self.interrupt = 0;
        mask
    }
}

/// The registers `n` machine cycles later.
pub open spec fn spec_run_registers(g: GPU, n: nat) -> GPU
    decreases n,
{
    if n == 0 {
        g
    } else {
        spec_run_registers(g.spec_tick(), (n - 1) as nat)
    }
}

/// Where the display is in its frame: the machine cycles since the start
/// of line 0.
pub open spec fn spec_position(g: GPU) -> int {
    g.ly * LINE_CYCLES + g.cycles
}

/// A running display moves through its frame one machine cycle at a
/// time: a line lasts 114 machine cycles, a frame 154 lines, and after
/// 17556 machine cycles the display is where it was.
pub proof fn lemma_display_position(g: GPU, n: nat)
    requires
        g.wf(),
        g.spec_lcd_on(),
    ensures
        spec_run_registers(g, n).wf(),
        spec_run_registers(g, n).spec_lcd_on(),
        spec_position(spec_run_registers(g, n)) == (spec_position(g) + n) % 17556,
        spec_run_registers(g, n).mode == spec_mode_at(
            spec_run_registers(g, n).ly,
            spec_run_registers(g, n).cycles,
        ),
    decreases n,
{
    if n > 0 {
        let next = g.spec_tick();
        assert(spec_position(next) == (spec_position(g) + 1) % 17556);
        lemma_display_position(next, (n - 1) as nat);
    }
}

/// A line of a running display takes 114 machine cycles, whichever line
/// and wherever in it the display is.
pub proof fn lemma_line_length(g: GPU)
    requires
        g.wf(),
        g.spec_lcd_on(),
    ensures
        spec_run_registers(g, 114).cycles == g.cycles,
        spec_run_registers(g, 114).ly == (g.ly + 1) % 154,
{
    lemma_display_position(g, 114);
    let after = spec_run_registers(g, 114);
    assert(after.ly * 114 + after.cycles == (g.ly * 114 + g.cycles + 114) % 17556);
}

/// While the display is off, LY reads as zero, a machine cycle changes
/// nothing, and so no interrupt is requested.
pub proof fn lemma_lcd_off_is_still(g: GPU)
    requires
        g.wf(),
        !g.spec_lcd_on(),
    ensures
        g.spec_read(0xff44) == 0,
        g.spec_tick() == g,
        g.spec_tick().interrupt == g.interrupt,
        g.spec_event() == LcdEvent::Idle,
{
}

} // verus!
