//! The I/O registers, as offsets from `0xff00`.

use vstd::prelude::*;

verus! {

/// Input button matrix control.
pub const INPUT: u16 = 0x00;
/// Serial data.
pub const SB: u16 = 0x01;
/// Serial control.
pub const SC: u16 = 0x02;
/// Divider: the high byte of the free-running counter.
pub const DIV: u16 = 0x04;
/// Timer counter.
pub const TIMA: u16 = 0x05;
/// Timer modulo, reloaded into the counter when it overflows.
pub const TMA: u16 = 0x06;
/// Timer control.
pub const TAC: u16 = 0x07;
/// Interrupt flags.
pub const IF: u16 = 0x0f;
/// Sound channel 1, sweep.
pub const NR10: u16 = 0x10;
/// Sound channel 1, duty and length.
pub const NR11: u16 = 0x11;
/// Sound channel 1, envelope.
pub const NR12: u16 = 0x12;
/// Sound channel 1, frequency low.
pub const NR13: u16 = 0x13;
/// Sound channel 1, frequency high and trigger.
pub const NR14: u16 = 0x14;
/// Sound channel 2, duty and length.
pub const NR21: u16 = 0x16;
/// Sound channel 2, envelope.
pub const NR22: u16 = 0x17;
/// Sound channel 2, frequency low.
pub const NR23: u16 = 0x18;
/// Sound channel 2, frequency high and trigger.
pub const NR24: u16 = 0x19;
/// Sound channel 3, enable.
pub const NR30: u16 = 0x1a;
/// Sound channel 3, length.
pub const NR31: u16 = 0x1b;
/// Sound channel 3, output level.
pub const NR32: u16 = 0x1c;
/// Sound channel 3, frequency low.
pub const NR33: u16 = 0x1d;
/// Sound channel 3, frequency high and trigger.
pub const NR34: u16 = 0x1e;
/// Sound channel 4, length.
pub const NR41: u16 = 0x20;
/// Sound channel 4, envelope.
pub const NR42: u16 = 0x21;
/// Sound channel 4, polynomial counter.
pub const NR43: u16 = 0x22;
/// Sound channel 4, trigger.
pub const NR44: u16 = 0x23;
/// Sound control: master volume.
pub const NR50: u16 = 0x24;
/// Sound control: output terminal of each channel.
pub const NR51: u16 = 0x25;
/// Sound control: global enable and channel status.
pub const NR52: u16 = 0x26;
/// Sound channel 3, first byte of the sample RAM.
pub const NR3_RAM_START: u16 = 0x30;
/// Sound channel 3, last byte of the sample RAM.
pub const NR3_RAM_END: u16 = 0x3f;
/// LCD control.
pub const LCDC: u16 = 0x40;
/// LCD status and interrupt selection.
pub const LCD_STAT: u16 = 0x41;
/// Background scroll, vertical.
pub const LCD_SCY: u16 = 0x42;
/// Background scroll, horizontal.
pub const LCD_SCX: u16 = 0x43;
/// The line being drawn.
pub const LCD_LY: u16 = 0x44;
/// The line to compare with.
pub const LCD_LYC: u16 = 0x45;
/// Starts a transfer into the object attribute memory.
pub const DMA: u16 = 0x46;
/// Background palette.
pub const LCD_BGP: u16 = 0x47;
/// Object palette 0.
pub const LCD_OBP0: u16 = 0x48;
/// Object palette 1.
pub const LCD_OBP1: u16 = 0x49;
/// Window position, vertical.
pub const LCD_WY: u16 = 0x4a;
/// Window position, horizontal, plus 7.
pub const LCD_WX: u16 = 0x4b;

} // verus!
