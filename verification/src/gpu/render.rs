//! What a scanline looks like: background, window and objects.

use vstd::prelude::*;
use crate::gpu::types::Color;
use crate::io::gpu::BG_ADDR;
use crate::io::gpu::BG_MAP;
use crate::io::gpu::BG_ON;
use crate::io::gpu::GPU;
use crate::io::gpu::OBJ_ON;
use crate::io::gpu::OBJ_SIZE;
use crate::io::gpu::WINDOW_MAP;

verus! {

/// Object flag: the object uses the second object palette.
pub const PALETTE: u8 = 0x10;
/// Object flag: the object is mirrored left to right.
pub const FLIPX: u8 = 0x20;
/// Object flag: the object is mirrored top to bottom.
pub const FLIPY: u8 = 0x40;
/// Object flag: the object hides behind background pixels that are not 0.
pub const PRIORITY: u8 = 0x80;

/// The number of objects.
pub const OAM_SPRITES: usize = 40;
/// At most this many objects are drawn on a line.
pub const SPRITES_PER_LINE: u8 = 10;

/// The memories of the picture unit, as mathematics.
pub struct VideoMemory {
    /// 384 tiles of 16 bytes: `0x8000..=0x97ff`.
    pub character_ram: Seq<u8>,
    /// 32 by 32 tile numbers: `0x9800..=0x9bff`.
    pub tile_map1: Seq<u8>,
    /// 32 by 32 tile numbers: `0x9c00..=0x9fff`.
    pub tile_map2: Seq<u8>,
    /// 40 objects of 4 bytes: row plus 16, column plus 8, tile, flags.
    pub oam: Seq<u8>,
}

impl VideoMemory {
    /// Every memory has its size.
    pub open spec fn wf(self) -> bool {
        &&& self.character_ram.len() == 0x1800
        &&& self.tile_map1.len() == 0x400
        &&& self.tile_map2.len() == 0x400
        &&& self.oam.len() == 0xa0
    }
}

/// An entry of the object attribute memory, as stored.
#[derive(Debug, Copy, Clone, PartialEq, Eq, Structural)]
pub struct Sprite {
    /// The top row on the screen, plus 16.
    pub y: u8,
    /// The left column on the screen, plus 8.
    pub x: u8,
    /// The tile.
    pub tile_num: u8,
    /// Palette, mirroring and priority.
    pub flags: u8,
}

impl Sprite {
    /// An object at the top left corner of the object plane, off screen.
    pub fn new() -> (s: Sprite)
        ensures
            s == (Sprite { y: 0, x: 0, tile_num: 0, flags: 0 }),
    {
        Sprite { y: 0, x: 0, tile_num: 0, flags: 0 }
    }
}

/// The object search up to some object: how many objects of the line were
/// met, and the best one that has a pixel to show at the column.
#[derive(Debug, Copy, Clone, PartialEq, Eq, Structural)]
pub struct SpritePick {
    /// The number of objects met that lie on the line, at most 10.
    pub count: u8,
    /// Whether an object has a pixel other than 0 at the column.
    pub found: bool,
    /// The leftmost such object; among equals, the first in memory.
    pub sprite: Sprite,
    /// Its pixel value at the column, 1 to 3.
    pub value: u8,
}

/// Bit `bit` of `byte`.
pub open spec fn spec_bit(byte: u8, bit: u8) -> u8 {
    (byte >> bit) & 1
}

/// The pixel value, 0 to 3, at `row` and `column` of the tile that starts
/// at `offset` of the character RAM. Each row is two bytes: the first
/// holds the low bits of its eight pixels, the second the high bits, the
/// leftmost pixel in bit 7.
pub open spec fn spec_tile_pixel(character_ram: Seq<u8>, offset: int, row: int, column: int) -> u8 {
    let low = character_ram[offset + 2 * row];
    let high = character_ram[offset + 2 * row + 1];
    (spec_bit(high, (7 - column) as u8) * 2 + spec_bit(low, (7 - column) as u8)) as u8
}

/// Where the background tile `tile` starts in the character RAM: counted
/// from `0x8000` if LCDC says so, else signed around `0x9000`.
pub open spec fn spec_tile_offset(control: u8, tile: u8) -> int {
    if control & BG_ADDR != 0 {
        tile * 16
    } else if tile < 128 {
        0x1000 + tile * 16
    } else {
        0x800 + (tile - 128) * 16
    }
}

/// The pixel value at column `px` and row `py` of the 256 by 256 plane
/// that a tile map describes.
pub open spec fn spec_map_pixel(control: u8, mem: VideoMemory, second: bool, px: int, py: int) -> u8 {
    let map = if second { mem.tile_map2 } else { mem.tile_map1 };
    let tile = map[(py / 8) * 32 + px / 8];
    spec_tile_pixel(mem.character_ram, spec_tile_offset(control, tile), py % 8, px % 8)
}

/// The pixel value of background and window at column `x` of the current
/// line: the window where it is shown and reaches; elsewhere the
/// scrolled background, or 0 if the background is off.
pub open spec fn spec_bg_value(regs: GPU, mem: VideoMemory, x: int) -> u8 {
    if regs.spec_window_visible() && x + 7 >= regs.wx {
        spec_map_pixel(
            regs.control,
            mem,
            regs.control & WINDOW_MAP != 0,
            x + 7 - regs.wx,
            regs.window_line as int,
        )
    } else if regs.control & BG_ON == 0 {
        0
    } else {
        spec_map_pixel(
            regs.control,
            mem,
            regs.control & BG_MAP != 0,
            (x + regs.scx) % 256,
            (regs.ly + regs.scy) % 256,
        )
    }
}

/// The object stored as entry `index`.
pub open spec fn spec_sprite(oam: Seq<u8>, index: int) -> Sprite {
    Sprite {
        y: oam[4 * index],
        x: oam[4 * index + 1],
        tile_num: oam[4 * index + 2],
        flags: oam[4 * index + 3],
    }
}

/// The height of the objects: 16 rows or 8.
pub open spec fn spec_sprite_height(control: u8) -> int {
    if control & OBJ_SIZE != 0 {
        16
    } else {
        8
    }
}

/// Whether the object has a row on line `ly`.
pub open spec fn spec_sprite_on_line(s: Sprite, ly: u8, height: int) -> bool {
    s.y <= ly + 16 < s.y + height
}

/// Whether the object has a column at screen column `x`.
pub open spec fn spec_sprite_covers(s: Sprite, x: int) -> bool {
    s.x <= x + 8 < s.x + 8
}

/// The pixel value of an object at column `x` of line `ly`. Mirroring
/// turns rows and columns round; an object 16 rows high takes its upper
/// half from the even tile and its lower half from the odd tile above it.
pub open spec fn spec_sprite_value(
    control: u8,
    character_ram: Seq<u8>,
    s: Sprite,
    ly: u8,
    x: int,
) -> u8 {
    let height = spec_sprite_height(control);
    let down = ly + 16 - s.y;
    let row = if s.flags & FLIPY != 0 { height - 1 - down } else { down };
    let across = x + 8 - s.x;
    let column = if s.flags & FLIPX != 0 { 7 - across } else { across };
    let tile = if height == 16 {
        (s.tile_num & 0xfe) + (if row >= 8 { 1int } else { 0int })
    } else {
        s.tile_num as int
    };
    spec_tile_pixel(character_ram, tile * 16, row % 8, column)
}

/// The object search of line `regs.ly` for column `x`, over the first `n`
/// objects. Only the first ten objects on the line take part; of those
/// that show a pixel other than 0 at the column the leftmost wins, and
/// among equals the first in memory.
pub open spec fn spec_pick_sprite(regs: GPU, mem: VideoMemory, x: int, n: nat) -> SpritePick
    decreases n,
{
    if n == 0 {
        SpritePick { count: 0, found: false, sprite: Sprite { y: 0, x: 0, tile_num: 0, flags: 0 }, value: 0 }
    } else {
        let before = spec_pick_sprite(regs, mem, x, (n - 1) as nat);
        let s = spec_sprite(mem.oam, n - 1);
        if before.count < SPRITES_PER_LINE && spec_sprite_on_line(
            s,
            regs.ly,
            spec_sprite_height(regs.control),
        ) {
            let value = spec_sprite_value(regs.control, mem.character_ram, s, regs.ly, x);
            if spec_sprite_covers(s, x) && value != 0 && (!before.found || s.x < before.sprite.x) {
                SpritePick { count: (before.count + 1) as u8, found: true, sprite: s, value }
            } else {
                SpritePick { count: (before.count + 1) as u8, ..before }
            }
        } else {
            before
        }
    }
}

/// The shade of the pixel at column `x` of the current line. The
/// background value goes through BGP. Where objects are on and one shows
/// a pixel at the column, its value goes through its palette instead,
/// unless the object has the priority flag and the background value is
/// not 0.
pub open spec fn spec_pixel(regs: GPU, mem: VideoMemory, x: int) -> Color {
    let bg = spec_bg_value(regs, mem, x);
    let behind = regs.bgp.spec_get(Color::spec_from_u8(bg));
    if regs.control & OBJ_ON != 0 {
        let pick = spec_pick_sprite(regs, mem, x, OAM_SPRITES as nat);
        if pick.found && !(pick.sprite.flags & PRIORITY != 0 && bg != 0) {
            if pick.sprite.flags & PALETTE != 0 {
                regs.obp1.spec_get(Color::spec_from_u8(pick.value))
            } else {
                regs.obp0.spec_get(Color::spec_from_u8(pick.value))
            }
        } else {
            behind
        }
    } else {
        behind
    }
}

/// The picture after the first `columns` pixels of line `regs.ly` are
/// drawn into `buffer`.
pub open spec fn spec_draw_columns(
    regs: GPU,
    mem: VideoMemory,
    buffer: Seq<Color>,
    columns: int,
) -> Seq<Color> {
    Seq::new(
        buffer.len(),
        |i: int|
            if regs.ly * 160 <= i < regs.ly * 160 + columns {
                spec_pixel(regs, mem, i - regs.ly * 160)
            } else {
                buffer[i]
            },
    )
}

/// The picture after line `regs.ly` is drawn into `buffer`.
pub open spec fn spec_draw_line(regs: GPU, mem: VideoMemory, buffer: Seq<Color>) -> Seq<Color> {
    spec_draw_columns(regs, mem, buffer, 160)
}

/// A bit is 0 or 1; a pixel value is 0 to 3; an even tile has an odd tile
/// above it.
pub proof fn lemma_pixel_bits(byte: u8, other: u8, bit: u8)
    by (bit_vector)
    requires
        bit < 8,
    ensures
        (byte >> bit) & 1 <= 1,
        (other >> bit) & 1 <= 1,
        byte & 0xfe <= 254,
{
}

} // verus!
