use rustboy::gpu::render::Sprite;
use rustboy::gpu::types::Color;
use rustboy::gpu::Gpu;
use rustboy::io::gpu::LcdEvent;
use rustboy::io::gpu::Mode;
use rustboy::io::gpu::Palette;
use rustboy::io::gpu::GPU;

#[test]
fn shades_by_number() {
    assert_eq!(Color::from_u8(0), Color::Off);
    assert_eq!(Color::from_u8(1), Color::Light);
    assert_eq!(Color::from_u8(2), Color::Dark);
    assert_eq!(Color::from_u8(3), Color::On);
    assert_eq!(Color::from_u8(4), Color::Off);
    assert_eq!(Color::from_u8(0xff), Color::Off);
    for n in 0..4u8 {
        assert_eq!(Color::from_u8(n).index(), n);
    }
}

#[test]
fn palette_maps_pixel_values() {
    let mut p = Palette::new();
    assert_eq!(p.bits, 0xff);
    assert_eq!(p.get(&Color::Off), Color::On);
    p.set_bits(0xe4);
    assert_eq!(p.get(&Color::Off), Color::Off);
    assert_eq!(p.get(&Color::Light), Color::Light);
    assert_eq!(p.get(&Color::Dark), Color::Dark);
    assert_eq!(p.get(&Color::On), Color::On);
    p.set_bits(0x1b);
    assert_eq!(p.get(&Color::Off), Color::On);
    assert_eq!(p.get(&Color::Light), Color::Dark);
    assert_eq!(p.get(&Color::Dark), Color::Light);
    assert_eq!(p.get(&Color::On), Color::Off);
    assert_eq!(p.bits, 0x1b);
}

#[test]
fn registers_read_back() {
    let mut g = GPU::new();
    assert!(!g.lcd_on());
    g.write_byte(0xff42, 0x12);
    g.write_byte(0xff43, 0x34);
    g.write_byte(0xff45, 0x56);
    g.write_byte(0xff47, 0xe4);
    g.write_byte(0xff48, 0xd2);
    g.write_byte(0xff49, 0x1b);
    g.write_byte(0xff4a, 0x78);
    g.write_byte(0xff4b, 0x9a);
    assert_eq!(g.read_byte(0xff42), 0x12);
    assert_eq!(g.read_byte(0xff43), 0x34);
    assert_eq!(g.read_byte(0xff45), 0x56);
    assert_eq!(g.read_byte(0xff47), 0xe4);
    assert_eq!(g.read_byte(0xff48), 0xd2);
    assert_eq!(g.read_byte(0xff49), 0x1b);
    assert_eq!(g.read_byte(0xff4a), 0x78);
    assert_eq!(g.read_byte(0xff4b), 0x9a);
    g.write_byte(0xff44, 0x99);
    assert_eq!(g.read_byte(0xff44), 0);
    g.write_byte(0xff41, 0xff);
    // bit 7 reads set, the selection is kept, LY differs from LYC, phase 0
    assert_eq!(g.read_byte(0xff41), 0xf8);
    g.write_byte(0xff45, 0x00);
    assert_eq!(g.read_byte(0xff41), 0xfc);
    g.write_byte(0xff40, 0x91);
    assert_eq!(g.read_byte(0xff40), 0x91);
    assert!(g.lcd_on());
    assert_eq!(g.read_byte(0xff41) & 0x03, 2);
}

#[test]
fn scanline_walks_through_its_phases() {
    let mut g = GPU::new();
    g.write_byte(0xff40, 0x80);
    assert_eq!(g.mode, Mode::AccessOam);
    for _ in 0..19 {
        assert_eq!(g.tick(), LcdEvent::Idle);
        assert_eq!(g.mode, Mode::AccessOam);
    }
    assert_eq!(g.tick(), LcdEvent::Idle);
    assert_eq!(g.mode, Mode::AccessVram);
    for _ in 0..42 {
        assert_eq!(g.tick(), LcdEvent::Idle);
        assert_eq!(g.mode, Mode::AccessVram);
    }
    assert_eq!(g.tick(), LcdEvent::DrawLine);
    assert_eq!(g.mode, Mode::HBlank);
    for _ in 0..50 {
        assert_eq!(g.tick(), LcdEvent::Idle);
        assert_eq!(g.mode, Mode::HBlank);
        assert_eq!(g.ly, 0);
    }
    assert_eq!(g.tick(), LcdEvent::Idle);
    assert_eq!(g.ly, 1);
    assert_eq!(g.mode, Mode::AccessOam);
    assert_eq!(g.cycles, 0);
}

#[test]
fn frame_has_154_lines_and_requests_vertical_blank() {
    let mut g = GPU::new();
    g.write_byte(0xff40, 0x80);
    let mut frames = 0;
    for _ in 0..144 * 114 {
        if g.tick() == LcdEvent::FrameDone {
            frames += 1;
        }
    }
    assert_eq!(frames, 1);
    assert_eq!(g.ly, 144);
    assert_eq!(g.mode, Mode::VBlank);
    assert_eq!(g.read_byte(0xff41) & 0x03, 1);
    assert_eq!(g.take_interrupt(), 0x01);
    for _ in 0..10 * 114 - 1 {
        assert_eq!(g.tick(), LcdEvent::Idle);
        assert_eq!(g.mode, Mode::VBlank);
    }
    assert_eq!(g.ly, 153);
    g.tick();
    assert_eq!(g.ly, 0);
    assert_eq!(g.mode, Mode::AccessOam);
    assert_eq!(g.take_interrupt(), 0x00);
}

#[test]
fn status_interrupt_sources() {
    // horizontal blank
    let mut g = GPU::new();
    g.write_byte(0xff45, 0xff);
    g.write_byte(0xff41, 0x08);
    g.write_byte(0xff40, 0x80);
    for _ in 0..62 {
        g.tick();
    }
    assert_eq!(g.interrupt, 0);
    g.tick();
    assert_eq!(g.take_interrupt(), 0x02);
    // OAM search of the next line
    g.write_byte(0xff41, 0x20);
    for _ in 0..51 {
        g.tick();
    }
    assert_eq!(g.take_interrupt(), 0x02);
    // line compare
    g.write_byte(0xff41, 0x40);
    g.write_byte(0xff45, 0x02);
    for _ in 0..113 {
        g.tick();
    }
    assert_eq!(g.interrupt, 0);
    g.tick();
    assert_eq!(g.ly, 2);
    assert_eq!(g.read_byte(0xff41) & 0x04, 0x04);
    assert_eq!(g.take_interrupt(), 0x02);
    // vertical blank with its status source
    g.write_byte(0xff41, 0x10);
    while g.ly != 144 {
        g.tick();
    }
    assert_eq!(g.take_interrupt(), 0x03);
}

#[test]
fn display_off_rests_at_line_zero() {
    let mut g = GPU::new();
    g.write_byte(0xff41, 0x78);
    g.write_byte(0xff40, 0x80);
    for _ in 0..500 {
        g.tick();
    }
    assert_eq!(g.ly, 4);
    g.take_interrupt();
    g.write_byte(0xff40, 0x00);
    assert_eq!(g.read_byte(0xff44), 0);
    assert_eq!(g.mode, Mode::HBlank);
    for _ in 0..20000 {
        assert_eq!(g.tick(), LcdEvent::Idle);
    }
    assert_eq!(g.read_byte(0xff44), 0);
    assert_eq!(g.interrupt, 0);
    assert_eq!(g.mode, Mode::HBlank);
}

#[test]
fn video_memory_is_closed_during_pixel_transfer() {
    let mut g = Gpu::new();
    g.write_character_ram(0x0010, 0x11);
    g.write_tile_map1(0x0020, 0x22);
    g.write_tile_map2(0x0030, 0x33);
    g.write_oam(0x0004, 0x44);
    g.write_byte(0xff40, 0x80);
    // OAM search: video RAM open, object memory closed
    assert_eq!(g.regs().mode, Mode::AccessOam);
    assert_eq!(g.read_character_ram(0x0010), 0x11);
    assert_eq!(g.read_tile_map1(0x0020), 0x22);
    assert_eq!(g.read_tile_map2(0x0030), 0x33);
    assert_eq!(g.read_oam(0x0004), 0xff);
    g.write_oam(0x0004, 0x55);
    g.do_cycle(20);
    // pixel transfer: both closed
    assert_eq!(g.regs().mode, Mode::AccessVram);
    assert_eq!(g.read_character_ram(0x0010), 0xff);
    assert_eq!(g.read_tile_map1(0x0020), 0xff);
    assert_eq!(g.read_tile_map2(0x0030), 0xff);
    assert_eq!(g.read_oam(0x0004), 0xff);
    g.write_character_ram(0x0010, 0x66);
    g.write_tile_map1(0x0020, 0x66);
    g.write_tile_map2(0x0030, 0x66);
    g.write_oam(0x0004, 0x66);
    assert_eq!(g.vram_raw(0x0010), 0x11);
    assert_eq!(g.vram_raw(0x1820), 0x22);
    assert_eq!(g.vram_raw(0x1c30), 0x33);
    g.do_cycle(43);
    // horizontal blank: both open, the dropped writes left no trace
    assert_eq!(g.regs().mode, Mode::HBlank);
    assert_eq!(g.read_character_ram(0x0010), 0x11);
    assert_eq!(g.read_tile_map1(0x0020), 0x22);
    assert_eq!(g.read_tile_map2(0x0030), 0x33);
    assert_eq!(g.read_oam(0x0004), 0x44);
    g.store_oam(0x0004, 0x77);
    assert_eq!(g.read_oam(0x0004), 0x77);
}

fn checker_tile(g: &mut Gpu, tile: u16, low: u8, high: u8) {
    for row in 0..8 {
        g.write_character_ram(tile * 16 + row * 2, low);
        g.write_character_ram(tile * 16 + row * 2 + 1, high);
    }
}

#[test]
fn background_is_drawn_through_the_palette() {
    let mut g = Gpu::new();
    // tile 0: columns 0-3 value 1, columns 4-7 value 2
    checker_tile(&mut g, 0, 0xf0, 0x0f);
    g.set_bg_palette(0xe4);
    g.write_byte(0xff40, 0x91);
    g.do_cycle(144 * 114);
    assert!(g.take_frame_ready());
    assert!(!g.take_frame_ready());
    let frame = g.screen_buffer();
    assert_eq!(frame.len(), 160 * 144);
    for y in [0usize, 1, 77, 143] {
        for x in 0..160usize {
            let expected = if x % 8 < 4 { Color::Light } else { Color::Dark };
            assert_eq!(frame[y * 160 + x], expected);
        }
    }
}

#[test]
fn background_scrolls() {
    let mut g = Gpu::new();
    checker_tile(&mut g, 0, 0xf0, 0x0f);
    g.set_bg_palette(0xe4);
    g.set_scroll_x(4);
    g.set_scroll_y(3);
    g.write_byte(0xff40, 0x91);
    g.do_cycle(144 * 114);
    let frame = g.screen_buffer();
    for x in 0..160usize {
        let expected = if (x + 4) % 8 < 4 { Color::Light } else { Color::Dark };
        assert_eq!(frame[x], expected);
    }
}

#[test]
fn signed_tile_numbers_count_around_0x9000() {
    let mut g = Gpu::new();
    // tile data at 0x9000 (offset 0x1000) is tile 0 in the signed numbering
    for row in 0..8u16 {
        g.write_character_ram(0x1000 + row * 2, 0xff);
        g.write_character_ram(0x1000 + row * 2 + 1, 0xff);
    }
    // tile 0x80 in the signed numbering is at 0x8800 (offset 0x0800)
    for row in 0..8u16 {
        g.write_character_ram(0x0800 + row * 2, 0xff);
        g.write_character_ram(0x0800 + row * 2 + 1, 0x00);
    }
    g.write_tile_map1(1, 0x80);
    g.set_bg_palette(0xe4);
    g.write_byte(0xff40, 0x81);
    g.do_cycle(144 * 114);
    let frame = g.screen_buffer();
    assert_eq!(frame[0], Color::On);
    assert_eq!(frame[7], Color::On);
    assert_eq!(frame[8], Color::Light);
    assert_eq!(frame[15], Color::Light);
    assert_eq!(frame[16], Color::On);
}

#[test]
fn window_covers_the_background() {
    let mut g = Gpu::new();
    checker_tile(&mut g, 1, 0xff, 0xff);
    // window map (second map) shows tile 1 everywhere
    for i in 0..0x400u16 {
        g.write_tile_map2(i, 1);
    }
    g.set_bg_palette(0xe4);
    g.set_window_x(7 + 80);
    g.set_window_y(72);
    g.write_byte(0xff40, 0x80 | 0x40 | 0x20 | 0x10 | 0x01);
    g.do_cycle(144 * 114);
    let frame = g.screen_buffer();
    assert_eq!(frame[71 * 160 + 100], Color::Off);
    assert_eq!(frame[72 * 160 + 79], Color::Off);
    assert_eq!(frame[72 * 160 + 80], Color::On);
    assert_eq!(frame[143 * 160 + 159], Color::On);
    assert_eq!(g.regs().window_line, 72);
}

#[test]
fn window_shows_without_the_background() {
    let mut g = Gpu::new();
    checker_tile(&mut g, 0, 0xff, 0x00);
    checker_tile(&mut g, 1, 0xff, 0xff);
    for i in 0..0x400u16 {
        g.write_tile_map2(i, 1);
    }
    g.set_bg_palette(0xe4);
    g.set_window_x(7 + 8);
    g.set_window_y(0);
    // window on, second map for the window, background off
    g.write_byte(0xff40, 0x80 | 0x40 | 0x20 | 0x10);
    g.do_cycle(144 * 114);
    let frame = g.screen_buffer();
    assert_eq!(frame[0], Color::Off);
    assert_eq!(frame[7], Color::Off);
    assert_eq!(frame[8], Color::On);
    assert_eq!(frame[159], Color::On);
}

#[test]
fn objects_are_drawn_over_the_background() {
    let mut g = Gpu::new();
    // tile 1: leftmost column value 3, the rest transparent
    checker_tile(&mut g, 1, 0x80, 0x80);
    g.set_bg_palette(0xe4);
    g.write_byte(0xff48, 0xe4);
    g.write_byte(0xff49, 0x1b);
    // object 0 at the top left corner
    g.write_oam(0, 16);
    g.write_oam(1, 8);
    g.write_oam(2, 1);
    g.write_oam(3, 0x00);
    // object 1 mirrored left to right, second palette, at column 16
    g.write_oam(4, 16);
    g.write_oam(5, 8 + 16);
    g.write_oam(6, 1);
    g.write_oam(7, 0x30);
    g.write_byte(0xff40, 0x93);
    g.do_cycle(144 * 114);
    let frame = g.screen_buffer();
    assert_eq!(frame[0], Color::On);
    assert_eq!(frame[1], Color::Off);
    assert_eq!(frame[7 * 160], Color::On);
    assert_eq!(frame[8 * 160], Color::Off);
    assert_eq!(frame[16], Color::Off);
    assert_eq!(frame[23], Color::Off);
    // value 3 through the palette 0x1b is shade 0, drawn over the background
    g.write_byte(0xff47, 0xff);
    g.do_cycle(154 * 114);
    let frame = g.screen_buffer();
    assert_eq!(frame[22], Color::On);
    assert_eq!(frame[23], Color::Off);
}

#[test]
fn object_priority_and_order() {
    let mut g = Gpu::new();
    checker_tile(&mut g, 0, 0xff, 0x00);
    checker_tile(&mut g, 1, 0xff, 0xff);
    checker_tile(&mut g, 2, 0x00, 0xff);
    g.set_bg_palette(0xe4);
    g.write_byte(0xff48, 0xe4);
    // object 0 hides behind the background, which has value 1 everywhere
    g.write_oam(0, 16);
    g.write_oam(1, 8);
    g.write_oam(2, 1);
    g.write_oam(3, 0x80);
    // objects 1 and 2 overlap at columns 36 to 39; the one further left wins
    g.write_oam(4, 16);
    g.write_oam(5, 8 + 36);
    g.write_oam(6, 1);
    g.write_oam(7, 0x00);
    g.write_oam(8, 16);
    g.write_oam(9, 8 + 32);
    g.write_oam(10, 2);
    g.write_oam(11, 0x00);
    g.write_byte(0xff40, 0x93);
    g.do_cycle(144 * 114);
    let frame = g.screen_buffer();
    assert_eq!(frame[0], Color::Light);
    assert_eq!(frame[32], Color::Dark);
    assert_eq!(frame[36], Color::Dark);
    assert_eq!(frame[39], Color::Dark);
    assert_eq!(frame[40], Color::On);
    assert_eq!(frame[43], Color::On);
    assert_eq!(frame[44], Color::Light);
}

#[test]
fn only_ten_objects_per_line() {
    let mut g = Gpu::new();
    checker_tile(&mut g, 1, 0xff, 0xff);
    g.set_bg_palette(0xe4);
    g.write_byte(0xff48, 0xe4);
    for i in 0..12u16 {
        g.write_oam(i * 4, 16);
        g.write_oam(i * 4 + 1, 8 + 8 * i as u8);
        g.write_oam(i * 4 + 2, 1);
        g.write_oam(i * 4 + 3, 0);
    }
    g.write_byte(0xff40, 0x93);
    g.do_cycle(144 * 114);
    let frame = g.screen_buffer();
    assert_eq!(frame[0], Color::On);
    assert_eq!(frame[79], Color::On);
    assert_eq!(frame[80], Color::Off);
    assert_eq!(frame[95], Color::Off);
}

#[test]
fn tall_objects_use_two_tiles_and_flip() {
    let mut g = Gpu::new();
    checker_tile(&mut g, 2, 0xff, 0x00);
    checker_tile(&mut g, 3, 0x00, 0xff);
    g.set_bg_palette(0xe4);
    g.write_byte(0xff48, 0xe4);
    // the low bit of the tile number is ignored
    g.write_oam(0, 16);
    g.write_oam(1, 8);
    g.write_oam(2, 3);
    g.write_oam(3, 0x00);
    // flipped top to bottom
    g.write_oam(4, 16);
    g.write_oam(5, 8 + 8);
    g.write_oam(6, 2);
    g.write_oam(7, 0x40);
    g.write_byte(0xff40, 0x97);
    g.do_cycle(144 * 114);
    let frame = g.screen_buffer();
    assert_eq!(frame[0], Color::Light);
    assert_eq!(frame[7 * 160], Color::Light);
    assert_eq!(frame[8 * 160], Color::Dark);
    assert_eq!(frame[15 * 160], Color::Dark);
    assert_eq!(frame[16 * 160], Color::Off);
    assert_eq!(frame[8], Color::Dark);
    assert_eq!(frame[7 * 160 + 8], Color::Dark);
    assert_eq!(frame[8 * 160 + 8], Color::Light);
}

#[test]
fn switching_the_display_off_blanks_the_frame() {
    let mut g = Gpu::new();
    checker_tile(&mut g, 0, 0xff, 0xff);
    g.set_bg_palette(0xe4);
    g.write_byte(0xff40, 0x91);
    g.do_cycle(144 * 114);
    assert_eq!(g.screen_buffer()[0], Color::On);
    assert_eq!(g.take_interrupt(), 0x01);
    g.write_byte(0xff40, 0x11);
    assert!(g.screen_buffer().iter().all(|c| *c == Color::Off));
    assert_eq!(g.read_byte(0xff44), 0);
    g.do_cycle(20000);
    assert_eq!(g.read_byte(0xff44), 0);
    assert_eq!(g.take_interrupt(), 0);
    assert!(g.screen_buffer().iter().all(|c| *c == Color::Off));
    g.set_vramBank(1);
    assert_eq!(g.regs().vrambank, 1);
}

#[test]
fn fresh_object_entry() {
    let s = Sprite::new();
    assert_eq!((s.y, s.x, s.tile_num, s.flags), (0, 0, 0, 0));
}
