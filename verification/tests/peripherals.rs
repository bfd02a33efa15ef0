use rustboy::io::irq::Interrupt;
use rustboy::io::irq::Irq;
use rustboy::io::joypad::Joypad;
use rustboy::io::joypad::P1;
use rustboy::io::map::in_range;
use rustboy::io::map::range_size;
use rustboy::io::map::CHAR_RAM;
use rustboy::io::map::IRAM;
use rustboy::io::map::IRAM_ECHO;
use rustboy::io::map::OAM;
use rustboy::io::map::ROM;
use rustboy::io::map::V_TILE_MAP1;
use rustboy::io::map::ZERO_PAGE;
use rustboy::io::ram::Ram;
use rustboy::io::serial::Serial;
use rustboy::io::timer::Timer;
use rustboy::types::GbKey;

#[test]
fn ranges_of_the_memory_map() {
    assert_eq!(in_range(0x0000, ROM), Some(0));
    assert_eq!(in_range(0x7fff, ROM), Some(0x7fff));
    assert_eq!(in_range(0x8000, ROM), None);
    assert_eq!(in_range(0xc123, IRAM), Some(0x0123));
    assert_eq!(in_range(0xe123, IRAM_ECHO), Some(0x0123));
    assert_eq!(in_range(0xbfff, IRAM), None);
    assert_eq!(in_range(0xfe9f, OAM), Some(0x9f));
    assert_eq!(in_range(0xff80, ZERO_PAGE), Some(0));
    assert_eq!(in_range(0xffff, ZERO_PAGE), None);
}

#[test]
fn sizes_of_the_memory_map() {
    assert_eq!(range_size(ROM), 0x8000);
    assert_eq!(range_size(CHAR_RAM), 0x1800);
    assert_eq!(range_size(V_TILE_MAP1), 0x400);
    assert_eq!(range_size(IRAM), 0x2000);
    assert_eq!(range_size(IRAM_ECHO), 0x1e00);
    assert_eq!(range_size(OAM), 0xa0);
    assert_eq!(range_size(ZERO_PAGE), 0x7f);
    assert_eq!(range_size((5, 5)), 1);
}

#[test]
fn ram_holds_what_is_written() {
    let mut ram = Ram::new(0x10);
    assert_eq!(ram.len(), 0x10);
    assert_eq!(ram.byte(0), 0xca);
    assert_eq!(ram.byte(0x0f), 0xca);
    ram.set_byte(3, 0x42);
    assert_eq!(ram.byte(3), 0x42);
    assert_eq!(ram.byte(2), 0xca);
    assert_eq!(ram.byte(4), 0xca);
}

#[test]
fn serial_registers() {
    let mut s = Serial::new();
    assert_eq!(s.read_byte(0xff01), 0);
    assert_eq!(s.read_byte(0xff02), 0);
    s.write_byte(0xff01, 0x41);
    s.write_byte(0xff02, 0x81);
    assert_eq!(s.read_byte(0xff01), 0x41);
    assert_eq!(s.read_byte(0xff02), 0x81);
}

#[test]
fn divider_is_cleared_by_any_write() {
    let mut t = Timer::new();
    t.do_cycle(64 * 5);
    assert_eq!(t.read_byte(0xff04), 5);
    t.write_byte(0xff04, 0x85);
    assert_eq!(t.read_byte(0xff04), 0x00);
    assert_eq!(t.internal, 0);
}

#[test]
fn divider_counts_every_256_clock_ticks() {
    let mut t = Timer::new();
    t.do_cycle(63);
    assert_eq!(t.read_byte(0xff04), 0);
    t.do_cycle(1);
    assert_eq!(t.read_byte(0xff04), 1);
    t.do_cycle(64 * 255);
    assert_eq!(t.read_byte(0xff04), 0);
    assert_eq!(t.internal, 0);
}

#[test]
fn timer_counter_overflow_reloads_and_requests() {
    let mut t = Timer::new();
    t.write_byte(0xff07, 0x05);
    t.write_byte(0xff06, 0xab);
    t.write_byte(0xff05, 0xfe);
    assert!(t.is_clock_enable());
    assert_eq!(t.get_clock(), 262144);
    t.do_cycle(4);
    assert_eq!(t.read_byte(0xff05), 0xff);
    assert_eq!(t.interrupt, 0);
    t.do_cycle(4);
    assert_eq!(t.read_byte(0xff05), 0xab);
    assert_eq!(t.interrupt, 0x04);
    assert_eq!(t.take_interrupt(), 0x04);
    assert_eq!(t.interrupt, 0);
}

#[test]
fn timer_rates() {
    for (control, hz, ticks) in [(0x04u8, 4096u32, 1024u32), (0x05, 262144, 16), (0x06, 65536, 64), (0x07, 16384, 256)] {
        let mut t = Timer::new();
        t.write_byte(0xff07, control);
        assert_eq!(t.get_clock(), hz);
        t.do_cycle(ticks / 4 - 1);
        for _ in 0..3 {
            t.tick();
        }
        assert_eq!(t.read_byte(0xff05), 0);
        t.tick();
        assert_eq!(t.read_byte(0xff05), 1);
    }
}

#[test]
fn disabled_timer_does_not_count() {
    let mut t = Timer::new();
    t.write_byte(0xff07, 0x01);
    assert!(!t.is_clock_enable());
    t.do_cycle(1000);
    assert_eq!(t.read_byte(0xff05), 0);
    assert_eq!(t.read_byte(0xff07), 0x01);
    assert_eq!(t.read_byte(0xff06), 0);
}

#[test]
fn interrupt_sources() {
    assert_eq!(Interrupt::from_u8(1), Some(Interrupt::VBank));
    assert_eq!(Interrupt::from_u8(2), Some(Interrupt::LCDState));
    assert_eq!(Interrupt::from_u8(4), Some(Interrupt::TimerOverflow));
    assert_eq!(Interrupt::from_u8(8), Some(Interrupt::SerialIOComplete));
    assert_eq!(Interrupt::from_u8(16), Some(Interrupt::JoyPad));
    assert_eq!(Interrupt::from_u8(0), None);
    assert_eq!(Interrupt::from_u8(3), None);
    assert_eq!(Interrupt::from_u8(32), None);
    assert_eq!(Interrupt::VBank.get_address(), 0x40);
    assert_eq!(Interrupt::LCDState.get_address(), 0x48);
    assert_eq!(Interrupt::TimerOverflow.get_address(), 0x50);
    assert_eq!(Interrupt::SerialIOComplete.get_address(), 0x58);
    assert_eq!(Interrupt::JoyPad.get_address(), 0x60);
    for kind in [Interrupt::VBank, Interrupt::LCDState, Interrupt::TimerOverflow, Interrupt::SerialIOComplete, Interrupt::JoyPad] {
        assert_eq!(kind.mask(), 1 << kind.index());
        assert_eq!(kind.get_address(), 0x40 + 8 * kind.index() as u16);
    }
}

#[test]
fn interrupt_controller_latches_and_masks() {
    let mut irq = Irq::new();
    assert_eq!(irq.get_interrupt_flag(), 0xe0);
    assert_eq!(irq.get_interrupt_enabled(), 0x00);
    assert_eq!(irq.pending(), 0);
    assert_eq!(irq.first_pending(), None);
    irq.request(Interrupt::TimerOverflow);
    irq.request(Interrupt::JoyPad);
    assert_eq!(irq.get_interrupt_flag(), 0xf4);
    assert_eq!(irq.pending(), 0);
    irq.set_interrupt_enabled(0xff);
    assert_eq!(irq.get_interrupt_enabled(), 0xff);
    assert_eq!(irq.pending(), 0x14);
    assert_eq!(irq.first_pending(), Some(Interrupt::TimerOverflow));
    irq.acknowledge(Interrupt::TimerOverflow);
    assert_eq!(irq.pending(), 0x10);
    assert_eq!(irq.first_pending(), Some(Interrupt::JoyPad));
    irq.set_interrupt_flag(0xff);
    assert_eq!(irq.get_interrupt_flag(), 0xff);
    assert_eq!(irq.flag, 0x1f);
    assert_eq!(irq.first_pending(), Some(Interrupt::VBank));
    irq.set_interrupt_flag(0x00);
    irq.request_mask(0x03);
    assert_eq!(irq.flag, 0x03);
}

#[test]
fn joypad_lines_of_keys() {
    assert_eq!(P1::directional(&GbKey::Right).bits, 0x01);
    assert_eq!(P1::directional(&GbKey::Left).bits, 0x02);
    assert_eq!(P1::directional(&GbKey::Up).bits, 0x04);
    assert_eq!(P1::directional(&GbKey::Down).bits, 0x08);
    assert_eq!(P1::directional(&GbKey::A).bits, 0x00);
    assert_eq!(P1::buttons(&GbKey::A).bits, 0x01);
    assert_eq!(P1::buttons(&GbKey::B).bits, 0x02);
    assert_eq!(P1::buttons(&GbKey::Select).bits, 0x04);
    assert_eq!(P1::buttons(&GbKey::Start).bits, 0x08);
    assert_eq!(P1::buttons(&GbKey::Down).bits, 0x00);
}

#[test]
fn joypad_rows() {
    let mut j = Joypad::new();
    assert_eq!(j.get_register(), 0xff);
    j.press(GbKey::Right);
    j.press(GbKey::Start);
    // nothing selected: no key shows
    j.set_register(0x30);
    assert_eq!(j.get_register(), 0xff);
    // directions selected (bit 4 low)
    j.set_register(0x20);
    assert_eq!(j.get_register(), 0xee);
    // buttons selected (bit 5 low)
    j.set_register(0x10);
    assert_eq!(j.get_register(), 0xd7);
    // both rows selected: the lines are or-ed
    j.set_register(0x00);
    assert_eq!(j.get_register(), 0xc6);
    j.release(GbKey::Right);
    assert_eq!(j.get_register(), 0xc7);
    j.release(GbKey::Start);
    assert_eq!(j.get_register(), 0xcf);
}

#[test]
fn joypad_write_stores_select_bits_only() {
    let mut j = Joypad::new();
    j.set_register(0xef);
    assert_eq!(j.register.bits & 0x30, 0x10);
    j.set_register(0x0f);
    assert_eq!(j.register.bits & 0x30, 0x30);
    assert_eq!(j.get_register(), 0xcf);
    j.press(GbKey::B);
    j.update_register();
    assert_eq!(j.register.bits, 0x32);
}
