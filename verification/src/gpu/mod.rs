//! The picture unit: video memory behind the access rules of the scanline
//! state machine, and the frame that it draws.

use vstd::prelude::*;
use crate::gpu::render::lemma_pixel_bits;
use crate::gpu::render::spec_bg_value;
use crate::gpu::render::spec_draw_columns;
use crate::gpu::render::spec_draw_line;
use crate::gpu::render::spec_map_pixel;
use crate::gpu::render::spec_pick_sprite;
use crate::gpu::render::spec_pixel;
use crate::gpu::render::spec_sprite;
use crate::gpu::render::spec_sprite_covers;
use crate::gpu::render::spec_sprite_height;
use crate::gpu::render::spec_sprite_on_line;
use crate::gpu::render::spec_sprite_value;
use crate::gpu::render::spec_tile_pixel;
use crate::gpu::render::Sprite;
use crate::gpu::render::SpritePick;
use crate::gpu::render::VideoMemory;
use crate::gpu::render::FLIPX;
use crate::gpu::render::FLIPY;
use crate::gpu::render::OAM_SPRITES;
use crate::gpu::render::PALETTE;
use crate::gpu::render::PRIORITY;
use crate::gpu::render::SPRITES_PER_LINE;
use crate::gpu::types::Color;
use crate::gpu::types::ScreenBuffer;
use crate::gpu::types::SCREEN_PIXELS;
use crate::io::gpu::lemma_display_position;
use crate::io::gpu::spec_position;
use crate::io::gpu::LcdEvent;
use crate::io::gpu::Mode;
use crate::io::gpu::BG_ADDR;
use crate::io::gpu::BG_MAP;
use crate::io::gpu::BG_ON;
use crate::io::gpu::GPU;
use crate::io::gpu::OBJ_ON;
use crate::io::gpu::OBJ_SIZE;
use crate::io::gpu::WINDOW_MAP;

pub mod render;
pub mod types;

verus! {

/// The size of the character RAM.
pub const CHARACTER_RAM_SIZE: usize = 0x1800;
/// The size of a tile map.
pub const TILE_MAP_SIZE: usize = 0x400;
/// The size of the object attribute memory.
pub const VOAM_SIZE: usize = 0xa0;
/// What a read yields while the picture unit holds the memory.
pub const UNDEFINED_READ: u8 = 0xff;

/// The picture unit, as mathematics.
pub struct GpuView {
    /// Registers and timing.
    pub regs: GPU,
    /// The video memories.
    pub mem: VideoMemory,
    /// The frame being drawn.
    pub back_buffer: Seq<Color>,
    /// The last complete frame.
    pub front_buffer: Seq<Color>,
    /// Whether a frame was completed since the flag was last taken.
    pub frame_ready: bool,
}

/// A picture of one shade.
pub open spec fn spec_blank(len: nat) -> Seq<Color> {
    Seq::new(len, |i: int| Color::Off)
}

impl GpuView {
    /// The picture unit at power-on: the display off, the memories zero,
    /// both frames blank.
    pub open spec fn spec_new() -> GpuView {
        GpuView {
            regs: GPU::spec_new(),
            mem: VideoMemory {
                character_ram: Seq::new(0x1800, |i: int| 0u8),
                tile_map1: Seq::new(0x400, |i: int| 0u8),
                tile_map2: Seq::new(0x400, |i: int| 0u8),
                oam: Seq::new(0xa0, |i: int| 0u8),
            },
            back_buffer: spec_blank(SCREEN_PIXELS as nat),
            front_buffer: spec_blank(SCREEN_PIXELS as nat),
            frame_ready: false,
        }
    }

    /// The invariant of the picture unit.
    pub open spec fn wf(self) -> bool {
        &&& self.regs.wf()
        &&& self.mem.wf()
        &&& self.back_buffer.len() == SCREEN_PIXELS
        &&& self.front_buffer.len() == SCREEN_PIXELS
    }

    /// Whether the program can reach the video RAM.
    pub open spec fn spec_vram_open(self) -> bool {
        self.regs.mode != Mode::AccessVram
    }

    /// Whether the program can reach the object attribute memory.
    pub open spec fn spec_oam_open(self) -> bool {
        self.regs.mode != Mode::AccessVram && self.regs.mode != Mode::AccessOam
    }

    /// What a read at `address` of the character RAM yields.
    pub open spec fn spec_read_character_ram(self, address: u16) -> u8 {
        if self.spec_vram_open() {
            self.mem.character_ram[address as int]
        } else {
            UNDEFINED_READ
        }
    }

    /// What a read at `address` of the first tile map yields.
    pub open spec fn spec_read_tile_map1(self, address: u16) -> u8 {
        if self.spec_vram_open() {
            self.mem.tile_map1[address as int]
        } else {
            UNDEFINED_READ
        }
    }

    /// What a read at `address` of the second tile map yields.
    pub open spec fn spec_read_tile_map2(self, address: u16) -> u8 {
        if self.spec_vram_open() {
            self.mem.tile_map2[address as int]
        } else {
            UNDEFINED_READ
        }
    }

    /// What a read at `address` of the object attribute memory yields.
    pub open spec fn spec_read_oam(self, address: u16) -> u8 {
        if self.spec_oam_open() {
            self.mem.oam[address as int]
        } else {
            UNDEFINED_READ
        }
    }

    /// The unit after a write at `address` of the character RAM.
    pub open spec fn spec_write_character_ram(self, address: u16, value: u8) -> GpuView {
        if self.spec_vram_open() {
            GpuView {
                mem: VideoMemory {
                    character_ram: self.mem.character_ram.update(address as int, value),
                    ..self.mem
                },
                ..self
            }
        } else {
            self
        }
    }

    /// The unit after a write at `address` of the first tile map.
    pub open spec fn spec_write_tile_map1(self, address: u16, value: u8) -> GpuView {
        if self.spec_vram_open() {
            GpuView {
                mem: VideoMemory {
                    tile_map1: self.mem.tile_map1.update(address as int, value),
                    ..self.mem
                },
                ..self
            }
        } else {
            self
        }
    }

    /// The unit after a write at `address` of the second tile map.
    pub open spec fn spec_write_tile_map2(self, address: u16, value: u8) -> GpuView {
        if self.spec_vram_open() {
            GpuView {
                mem: VideoMemory {
                    tile_map2: self.mem.tile_map2.update(address as int, value),
                    ..self.mem
                },
                ..self
            }
        } else {
            self
        }
    }

    /// The unit after a write at `address` of the object attribute memory
    /// that nothing holds back.
    pub open spec fn spec_store_oam(self, address: u16, value: u8) -> GpuView {
        GpuView {
            mem: VideoMemory { oam: self.mem.oam.update(address as int, value), ..self.mem },
            ..self
        }
    }

    /// The unit after the program writes at `address` of the object
    /// attribute memory.
    pub open spec fn spec_write_oam(self, address: u16, value: u8) -> GpuView {
        if self.spec_oam_open() {
            self.spec_store_oam(address, value)
        } else {
            self
        }
    }

    /// The byte at `address` of the 8 KiB of video RAM, whatever the phase:
    /// character RAM first, then the two tile maps.
    pub open spec fn spec_vram_raw(self, address: u16) -> u8 {
        if address < 0x1800 {
            self.mem.character_ram[address as int]
        } else if address < 0x1c00 {
            self.mem.tile_map1[address - 0x1800]
        } else {
            self.mem.tile_map2[address - 0x1c00]
        }
    }

    /// The unit after `value` is written to the register at `address`.
    /// Switching the display off blanks both frames.
    pub open spec fn spec_write_register(self, address: u16, value: u8) -> GpuView {
        let regs = self.regs.spec_write(address, value);
        if self.regs.spec_lcd_on() && !regs.spec_lcd_on() {
            GpuView {
                regs,
                back_buffer: spec_blank(SCREEN_PIXELS as nat),
                front_buffer: spec_blank(SCREEN_PIXELS as nat),
                ..self
            }
        } else {
            GpuView { regs, ..self }
        }
    }

    /// The unit one machine cycle later: the registers move; at the end of
    /// the pixel transfer the line is drawn; at the end of the last visible
    /// line the frame is published.
    pub open spec fn spec_tick(self) -> GpuView {
        let regs = self.regs.spec_tick();
        match self.regs.spec_event() {
            LcdEvent::Idle => GpuView { regs, ..self },
            LcdEvent::DrawLine => GpuView {
                regs,
                back_buffer: spec_draw_line(self.regs, self.mem, self.back_buffer),
                ..self
            },
            LcdEvent::FrameDone => GpuView {
                regs,
                front_buffer: self.back_buffer,
                frame_ready: true,
                ..self
            },
        }
    }

    /// The unit `n` machine cycles later.
    pub open spec fn spec_run(self, n: nat) -> GpuView
        decreases n,
    {
        if n == 0 {
            self
        } else {
            self.spec_tick().spec_run((n - 1) as nat)
        }
    }
}

/// The picture unit.
pub struct Gpu {
    regs: GPU,
    character_ram: Vec<u8>,
    tile_map1: Vec<u8>,
    tile_map2: Vec<u8>,
    oam: Vec<u8>,
    back_buffer: ScreenBuffer,
    front_buffer: ScreenBuffer,
    frame_ready: bool,
}

impl View for Gpu {
    type V = GpuView;

    closed spec fn view(&self) -> GpuView {
        GpuView {
            regs: self.regs,
            mem: VideoMemory {
                character_ram: self.character_ram@,
                tile_map1: self.tile_map1@,
                tile_map2: self.tile_map2@,
                oam: self.oam@,
            },
            back_buffer: self.back_buffer@,
            front_buffer: self.front_buffer@,
            frame_ready: self.frame_ready,
        }
    }
}

/// `len` zero bytes.
fn zeroed(len: usize) -> (v: Vec<u8>)
    ensures
        v@ == Seq::new(len as nat, |i: int| 0u8),
{
    let mut v: Vec<u8> = Vec::new();
    let mut i: usize = 0;
    while i < len
        invariant
            i <= len,
            v@.len() == i,
            forall|k: int| 0 <= k < i ==> v@[k] == 0u8,
        decreases len - i,
    {
        v.push(0);
        i += 1;
    }
    assert(v@ =~= Seq::new(len as nat, |i: int| 0u8));
    v
}

/// A blank picture.
fn blank_screen() -> (v: ScreenBuffer)
    ensures
        v@ == spec_blank(SCREEN_PIXELS as nat),
{
    let mut v: Vec<Color> = Vec::new();
    let mut i: usize = 0;
    while i < SCREEN_PIXELS
        invariant
            i <= SCREEN_PIXELS,
            v@.len() == i,
            forall|k: int| 0 <= k < i ==> v@[k] == Color::Off,
        decreases SCREEN_PIXELS - i,
    {
        v.push(Color::Off);
        i += 1;
    }
    assert(v@ =~= spec_blank(SCREEN_PIXELS as nat));
    v
}

impl Gpu {
    /// The invariant of the picture unit; `new` establishes it and every
    /// method keeps it.
    pub open spec fn wf(&self) -> bool {
        self@.wf()
    }

    /// The unit at power-on: the display off, the memories zero, both
    /// frames blank.
    pub fn new() -> (g: Gpu)
        ensures
            g.wf(),
            g@ == GpuView::spec_new(),
    {
        Gpu {
            regs: GPU::new(),
            character_ram: zeroed(CHARACTER_RAM_SIZE),
            tile_map1: zeroed(TILE_MAP_SIZE),
            tile_map2: zeroed(TILE_MAP_SIZE),
            oam: zeroed(VOAM_SIZE),
            back_buffer: blank_screen(),
            front_buffer: blank_screen(),
            frame_ready: false,
        }
    }

    /// The registers.
    pub fn regs(&self) -> (r: GPU)
        ensures
            r == self@.regs,
    {
        self.regs
    }

    /// Writes the character RAM; dropped during the pixel transfer.
    pub fn write_character_ram(&mut self, address: u16, value: u8)
        requires
            old(self).wf(),
            address < 0x1800,
        ensures
            final(self).wf(),
            final(self)@ == old(self)@.spec_write_character_ram(address, value),
    {
        if self.regs.mode == Mode::AccessVram {
            return ;
        }
        self.character_ram.set(address as usize, value);
    }

    /// Reads the character RAM; `0xff` during the pixel transfer.
    pub fn read_character_ram(&self, address: u16) -> (v: u8)
        requires
            self.wf(),
            address < 0x1800,
        ensures
            v == self@.spec_read_character_ram(address),
            self@.regs.mode == Mode::AccessVram ==> v == 0xff,
    {
        if self.regs.mode == Mode::AccessVram {
            return UNDEFINED_READ;
        }
        self.character_ram[address as usize]
    }

    /// Writes the first tile map; dropped during the pixel transfer.
    pub fn write_tile_map1(&mut self, address: u16, value: u8)
        requires
            old(self).wf(),
            address < 0x400,
        ensures
            final(self).wf(),
            final(self)@ == old(self)@.spec_write_tile_map1(address, value),
    {
        if self.regs.mode == Mode::AccessVram {
            return ;
        }
        self.tile_map1.set(address as usize, value);
    }

    /// Reads the first tile map; `0xff` during the pixel transfer.
    pub fn read_tile_map1(&self, address: u16) -> (v: u8)
        requires
            self.wf(),
            address < 0x400,
        ensures
            v == self@.spec_read_tile_map1(address),
            self@.regs.mode == Mode::AccessVram ==> v == 0xff,
    {
        if self.regs.mode == Mode::AccessVram {
            return UNDEFINED_READ;
        }
        self.tile_map1[address as usize]
    }

    /// Writes the second tile map; dropped during the pixel transfer.
    pub fn write_tile_map2(&mut self, address: u16, value: u8)
        requires
            old(self).wf(),
            address < 0x400,
        ensures
            final(self).wf(),
            final(self)@ == old(self)@.spec_write_tile_map2(address, value),
    {
        if self.regs.mode == Mode::AccessVram {
            return ;
        }
        self.tile_map2.set(address as usize, value);
    }

    /// Reads the second tile map; `0xff` during the pixel transfer.
    pub fn read_tile_map2(&self, address: u16) -> (v: u8)
        requires
            self.wf(),
            address < 0x400,
        ensures
            v == self@.spec_read_tile_map2(address),
            self@.regs.mode == Mode::AccessVram ==> v == 0xff,
    {
        if self.regs.mode == Mode::AccessVram {
            return UNDEFINED_READ;
        }
        self.tile_map2[address as usize]
    }

    /// Reads the object attribute memory; `0xff` during the OAM search and
    /// the pixel transfer.
    pub fn read_oam(&self, address: u16) -> (v: u8)
        requires
            self.wf(),
            address < 0xa0,
        ensures
            v == self@.spec_read_oam(address),
            self@.regs.mode == Mode::AccessVram || self@.regs.mode == Mode::AccessOam ==> v
                == 0xff,
    {
        if self.regs.mode == Mode::AccessVram || self.regs.mode == Mode::AccessOam {
            return UNDEFINED_READ;
        }
        self.oam[address as usize]
    }

    /// Writes the object attribute memory; dropped during the OAM search
    /// and the pixel transfer.
    pub fn write_oam(&mut self, address: u16, value: u8)
        requires
            old(self).wf(),
            address < 0xa0,
        ensures
            final(self).wf(),
            final(self)@ == old(self)@.spec_write_oam(address, value),
    {
        if self.regs.mode == Mode::AccessVram || self.regs.mode == Mode::AccessOam {
            return ;
        }
        self.oam.set(address as usize, value);
    }

    /// Stores a byte that a transfer brings into the object attribute
    /// memory. The transfer does not wait for the picture unit.
    pub fn store_oam(&mut self, address: u16, value: u8)
        requires
            old(self).wf(),
            address < 0xa0,
        ensures
            final(self).wf(),
            final(self)@ == old(self)@.spec_store_oam(address, value),
    {
        self.oam.set(address as usize, value);
    }

    /// The byte at `address` of the 8 KiB of video RAM, whatever the
    /// phase: what a transfer out of video RAM reads.
    pub fn vram_raw(&self, address: u16) -> (v: u8)
        requires
            self.wf(),
            address < 0x2000,
        ensures
            v == self@.spec_vram_raw(address),
    {
        if address < 0x1800 {
            self.character_ram[address as usize]
        } else if address < 0x1c00 {
            self.tile_map1[(address - 0x1800) as usize]
        } else {
            self.tile_map2[(address - 0x1c00) as usize]
        }
    }

    /// Reads the register at `address`: `0xff40..=0xff4b` but for
    /// `0xff46`.
    pub fn read_byte(&self, address: u16) -> (v: u8)
        requires
            0xff40 <= address <= 0xff4b,
            address != 0xff46,
        ensures
            v == self@.regs.spec_read(address),
    {
        self.regs.read_byte(address)
    }

    /// Writes the register at `address`: `0xff40..=0xff4b` but for
    /// `0xff46`. Switching the display off blanks both frames.
    pub fn write_byte(&mut self, address: u16, value: u8)
        requires
            old(self).wf(),
            0xff40 <= address <= 0xff4b,
            address != 0xff46,
        ensures
            final(self).wf(),
            final(self)@ == old(self)@.spec_write_register(address, value),
    {
        let was_on = self.regs.lcd_on();
        self.regs.write_byte(address, value);
        if was_on && !self.regs.lcd_on() {
            self.back_buffer = blank_screen();
            self.front_buffer = blank_screen();
        }
    }

    /// Writes BGP.
    pub fn set_bg_palette(&mut self, value: u8)
        requires
            old(self).wf(),
        ensures
            final(self).wf(),
            final(self)@ == old(self)@.spec_write_register(0xff47, value),
    {
        self.write_byte(0xff47, value);
    }

    /// Writes SCY.
    pub fn set_scroll_y(&mut self, value: u8)
        requires
            old(self).wf(),
        ensures
            final(self).wf(),
            final(self)@ == old(self)@.spec_write_register(0xff42, value),
    {
        self.write_byte(0xff42, value);
    }

    /// Writes SCX.
    pub fn set_scroll_x(&mut self, value: u8)
        requires
            old(self).wf(),
        ensures
            final(self).wf(),
            final(self)@ == old(self)@.spec_write_register(0xff43, value),
    {
        self.write_byte(0xff43, value);
    }

    /// Writes WY.
    pub fn set_window_y(&mut self, value: u8)
        requires
            old(self).wf(),
        ensures
            final(self).wf(),
            final(self)@ == old(self)@.spec_write_register(0xff4a, value),
    {
        self.write_byte(0xff4a, value);
    }

    /// Writes WX.
    pub fn set_window_x(&mut self, value: u8)
        requires
            old(self).wf(),
        ensures
            final(self).wf(),
            final(self)@ == old(self)@.spec_write_register(0xff4b, value),
    {
        self.write_byte(0xff4b, value);
    }

    /// Selects the bank of video RAM. The unit has one bank; the number is
    /// only kept.
    #[allow(non_snake_case)]
    pub fn set_vramBank(&mut self, value: u8)
        ensures
            old(self).wf() ==> final(self).wf(),
            final(self)@ == (GpuView {
                regs: GPU { vrambank: value, ..old(self)@.regs },
                ..old(self)@
            }),
    {
        self.regs.vrambank = value;
    }

    /// The last complete frame.
    pub fn screen_buffer(&self) -> (frame: &ScreenBuffer)
        ensures
            frame@ == self@.front_buffer,
    {
        &self.front_buffer
    }

    /// Whether a frame was completed since the last call; the flag is
    /// cleared.
    pub fn take_frame_ready(&mut self) -> (ready: bool)
        ensures
            old(self).wf() ==> final(self).wf(),
            ready == old(self)@.frame_ready,
            final(self)@ == (GpuView { frame_ready: false, ..old(self)@ }),
    {
        let ready = self.frame_ready;
        self.frame_ready = false;
        ready
    }

    /// Hands over the interrupt requests raised since the last call.
    pub fn take_interrupt(&mut self) -> (mask: u8)
        ensures
            mask == old(self)@.regs.interrupt,
            final(self)@ == (GpuView {
                regs: GPU { interrupt: 0, ..old(self)@.regs },
                ..old(self)@
            }),
    {
        self.regs.take_interrupt()
    }

    /// The pixel value at `row` and `column` of the tile at `offset`.
    fn tile_pixel(&self, offset: usize, row: usize, column: u8) -> (v: u8)
        requires
            self.wf(),
            offset + 15 < 0x1800,
            row < 8,
            column < 8,
        ensures
            v == spec_tile_pixel(self@.mem.character_ram, offset as int, row as int, column as int),
            v <= 3,
    {
        let low = self.character_ram[offset + 2 * row];
        let high = self.character_ram[offset + 2 * row + 1];
        let bit: u8 = 7 - column;
        proof {
            lemma_pixel_bits(high, low, bit);
        }
        ((high >> bit) & 1) * 2 + ((low >> bit) & 1)
    }

    /// The pixel value at column `px` and row `py` of a tile map plane.
    fn map_pixel(&self, control: u8, second: bool, px: u8, py: u8) -> (v: u8)
        requires
            self.wf(),
        ensures
            v == spec_map_pixel(control, self@.mem, second, px as int, py as int),
            v <= 3,
    {
        let index = (py as usize / 8) * 32 + (px as usize / 8);
        let tile = if second {
            self.tile_map2[index]
        } else {
            self.tile_map1[index]
        };
        let offset: usize = if control & BG_ADDR != 0 {
            tile as usize * 16
        } else if tile < 128 {
            0x1000 + tile as usize * 16
        } else {
            0x800 + (tile as usize - 128) * 16
        };
        self.tile_pixel(offset, (py % 8) as usize, px % 8)
    }

    /// The pixel value of background and window at column `x` of line
    /// `regs.ly`.
    fn bg_value(&self, regs: &GPU, x: u8) -> (v: u8)
        requires
            self.wf(),
            x < 160,
        ensures
            v == spec_bg_value(*regs, self@.mem, x as int),
            v <= 3,
    {
        if regs.window_visible() && x as u16 + 7 >= regs.wx as u16 {
            let px = (x as u16 + 7 - regs.wx as u16) as u8;
            self.map_pixel(regs.control, regs.control & WINDOW_MAP != 0, px, regs.window_line)
        } else if regs.control & BG_ON == 0 {
            0
        } else {
            let px = ((x as u16 + regs.scx as u16) % 256) as u8;
            let py = ((regs.ly as u16 + regs.scy as u16) % 256) as u8;
            self.map_pixel(regs.control, regs.control & BG_MAP != 0, px, py)
        }
    }

    /// The object stored as entry `index`.
    fn sprite(&self, index: usize) -> (s: Sprite)
        requires
            self.wf(),
            index < 40,
        ensures
            s == spec_sprite(self@.mem.oam, index as int),
    {
        Sprite {
            y: self.oam[4 * index],
            x: self.oam[4 * index + 1],
            tile_num: self.oam[4 * index + 2],
            flags: self.oam[4 * index + 3],
        }
    }

    /// The pixel value of an object at column `x` of line `ly`.
    fn sprite_value(&self, control: u8, s: &Sprite, ly: u8, x: u8) -> (v: u8)
        requires
            self.wf(),
            x < 160,
            spec_sprite_on_line(*s, ly, spec_sprite_height(control)),
            spec_sprite_covers(*s, x as int),
        ensures
            v == spec_sprite_value(control, self@.mem.character_ram, *s, ly, x as int),
            v <= 3,
    {
        let height: u16 = if control & OBJ_SIZE != 0 {
            16
        } else {
            8
        };
        let down: u16 = ly as u16 + 16 - s.y as u16;
        let row: u16 = if s.flags & FLIPY != 0 {
            height - 1 - down
        } else {
            down
        };
        let across: u16 = x as u16 + 8 - s.x as u16;
        let column: u16 = if s.flags & FLIPX != 0 {
            7 - across
        } else {
            across
        };
        proof {
            lemma_pixel_bits(s.tile_num, 0, 0);
        }
        let tile: usize = if height == 16 {
            (s.tile_num & 0xfe) as usize + (if row >= 8 {
                1usize
            } else {
                0usize
            })
        } else {
            s.tile_num as usize
        };
        self.tile_pixel(tile * 16, (row % 8) as usize, column as u8)
    }

    /// The object search of line `regs.ly` for column `x`.
    fn pick_sprite(&self, regs: &GPU, x: u8) -> (pick: SpritePick)
        requires
            self.wf(),
            x < 160,
        ensures
            pick == spec_pick_sprite(*regs, self@.mem, x as int, OAM_SPRITES as nat),
            pick.found ==> 1 <= pick.value <= 3,
    {
        let mut pick = SpritePick { count: 0, found: false, sprite: Sprite::new(), value: 0 };
        let height: u16 = if regs.control & OBJ_SIZE != 0 {
            16
        } else {
            8
        };
        let mut i: usize = 0;
        while i < OAM_SPRITES
            invariant
                i <= OAM_SPRITES,
                self.wf(),
                x < 160,
                height == spec_sprite_height(regs.control),
                pick == spec_pick_sprite(*regs, self@.mem, x as int, i as nat),
                pick.count <= SPRITES_PER_LINE,
                pick.found ==> 1 <= pick.value <= 3,
            decreases OAM_SPRITES - i,
        {
            let s = self.sprite(i);
            let line = regs.ly as u16 + 16;
            if pick.count < SPRITES_PER_LINE && s.y as u16 <= line && line < s.y as u16 + height {
                pick.count = pick.count + 1;
                let column = x as u16 + 8;
                if s.x as u16 <= column && column < s.x as u16 + 8 {
                    let value = self.sprite_value(regs.control, &s, regs.ly, x);
                    if value != 0 && (!pick.found || s.x < pick.sprite.x) {
                        pick.found = true;
                        pick.sprite = s;
                        pick.value = value;
                    }
                }
            }
            i += 1;
        }
        pick
    }

    /// The shade of the pixel at column `x` of line `regs.ly`.
    fn pixel(&self, regs: &GPU, x: u8) -> (c: Color)
        requires
            self.wf(),
            x < 160,
        ensures
            c == spec_pixel(*regs, self@.mem, x as int),
    {
        let bg = self.bg_value(regs, x);
        let behind = regs.bgp.get(&Color::from_u8(bg));
        if regs.control & OBJ_ON != 0 {
            let pick = self.pick_sprite(regs, x);
            if pick.found && !(pick.sprite.flags & PRIORITY != 0 && bg != 0) {
                if pick.sprite.flags & PALETTE != 0 {
                    regs.obp1.get(&Color::from_u8(pick.value))
                } else {
                    regs.obp0.get(&Color::from_u8(pick.value))
                }
            } else {
                behind
            }
        } else {
            behind
        }
    }

    /// Draws line `regs.ly` into the frame being drawn.
    fn draw_line(&mut self, regs: &GPU)
        requires
            old(self).wf(),
            regs.ly < 144,
        ensures
            final(self).wf(),
            final(self)@ == (GpuView {
                back_buffer: spec_draw_line(*regs, old(self)@.mem, old(self)@.back_buffer),
                ..old(self)@
            }),
    {
        let base: usize = regs.ly as usize * 160;
        let mut x: u8 = 0;
        assert(self.back_buffer@ =~= spec_draw_columns(
            *regs,
            old(self)@.mem,
            old(self)@.back_buffer,
            0,
        ));
        while x < 160
            invariant
                x <= 160,
                regs.ly < 144,
                base == regs.ly * 160,
                self.wf(),
                self@ == (GpuView {
                    back_buffer: spec_draw_columns(
                        *regs,
                        old(self)@.mem,
                        old(self)@.back_buffer,
                        x as int,
                    ),
                    ..old(self)@
                }),
            decreases 160 - x,
        {
            let c = self.pixel(regs, x);
            self.back_buffer.set(base + x as usize, c);
            assert(self.back_buffer@ =~= spec_draw_columns(
                *regs,
                old(self)@.mem,
                old(self)@.back_buffer,
                x + 1,
            ));
            x += 1;
        }
    }

    /// Copies the frame being drawn into the complete frame.
    fn publish_frame(&mut self)
        requires
            old(self).wf(),
        ensures
            final(self).wf(),
            final(self)@ == (GpuView {
                front_buffer: old(self)@.back_buffer,
                frame_ready: true,
                ..old(self)@
            }),
    {
        let mut i: usize = 0;
        while i < SCREEN_PIXELS
            invariant
                i <= SCREEN_PIXELS,
                self.wf(),
                self@.regs == old(self)@.regs,
                self@.mem == old(self)@.mem,
                self@.back_buffer == old(self)@.back_buffer,
                self@.frame_ready == old(self)@.frame_ready,
                forall|k: int| 0 <= k < i ==> self@.front_buffer[k] == old(self)@.back_buffer[k],
            decreases SCREEN_PIXELS - i,
        {
            let c = self.back_buffer[i];
            self.front_buffer.set(i, c);
            i += 1;
        }
        self.frame_ready = true;
        assert(self@.front_buffer =~= old(self)@.back_buffer);
    }

    /// Advances the unit by one machine cycle.
    pub fn tick(&mut self)
        requires
            old(self).wf(),
        ensures
            final(self).wf(),
            final(self)@ == old(self)@.spec_tick(),
    {
        let before = self.regs;
        let event = self.regs.tick();
        match event {
            LcdEvent::Idle => {},
            LcdEvent::DrawLine => {
                self.draw_line(&before);
            },
            LcdEvent::FrameDone => {
                self.publish_frame();
            },
        }
    }

    /// Advances the unit by `ticks` machine cycles. A running display
    /// moves on by so many machine cycles in its frame of 154 lines of
    /// 114; a display that is off does not move.
    pub fn do_cycle(&mut self, ticks: u32)
        requires
            old(self).wf(),
        ensures
            final(self).wf(),
            final(self)@ == old(self)@.spec_run(ticks as nat),
            old(self)@.regs.spec_lcd_on() ==> spec_position(final(self)@.regs) == (spec_position(
                old(self)@.regs,
            ) + ticks) % 17556,
            !old(self)@.regs.spec_lcd_on() ==> final(self)@ == old(self)@,
    {
        proof {
            lemma_run_moves_registers(old(self)@, ticks as nat);
            if old(self)@.regs.spec_lcd_on() {
                lemma_display_position(old(self)@.regs, ticks as nat);
            } else {
                lemma_display_off_is_still(old(self)@, ticks as nat);
            }
        }
        let mut done: u32 = 0;
        while done < ticks
            invariant
                done <= ticks,
                self.wf(),
                self@.spec_run((ticks - done) as nat) == old(self)@.spec_run(ticks as nat),
            decreases ticks - done,
        {
            self.tick();
            done += 1;
        }
    }
}

/// The registers of the picture unit move as the state machine says,
/// whatever is drawn.
pub proof fn lemma_run_moves_registers(g: GpuView, n: nat)
    ensures
        g.spec_run(n).regs == crate::io::gpu::spec_run_registers(g.regs, n),
    decreases n,
{
    if n > 0 {
        lemma_run_moves_registers(g.spec_tick(), (n - 1) as nat);
    }
}

/// While the display is off the picture unit does not move: line zero,
/// no interrupt requested, no frame drawn, however many machine cycles
/// pass.
pub proof fn lemma_display_off_is_still(g: GpuView, n: nat)
    requires
        g.wf(),
        !g.regs.spec_lcd_on(),
    ensures
        g.spec_run(n) == g,
        g.regs.ly == 0,
        g.regs.spec_read(0xff44) == 0,
    decreases n,
{
    if n > 0 {
        lemma_display_off_is_still(g, (n - 1) as nat);
    }
}

} // verus!
