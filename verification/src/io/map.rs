//! The memory map of the console. Ranges are inclusive.

use vstd::prelude::*;

verus! {

/// Cartridge ROM.
pub const ROM: (u16, u16) = (0x0000, 0x7fff);
/// Video character RAM: the tile bitmaps.
pub const CHAR_RAM: (u16, u16) = (0x8000, 0x97ff);
/// First video tile map.
pub const V_TILE_MAP1: (u16, u16) = (0x9800, 0x9bff);
/// Second video tile map.
pub const V_TILE_MAP2: (u16, u16) = (0x9c00, 0x9fff);
/// Cartridge RAM.
pub const RAM_BANK: (u16, u16) = (0xa000, 0xbfff);
/// Work RAM.
pub const IRAM: (u16, u16) = (0xc000, 0xdfff);
/// Echo of the work RAM.
pub const IRAM_ECHO: (u16, u16) = (0xe000, 0xfdff);
/// Object attribute memory.
pub const OAM: (u16, u16) = (0xfe00, 0xfe9f);
/// Unusable area; reads as zero.
pub const EMPTY_RAM: (u16, u16) = (0xfea0, 0xfeff);
/// I/O registers.
pub const IO: (u16, u16) = (0xff00, 0xff4b);
/// Writing here unmaps the boot program.
pub const UNMAP_BOOTROM: u16 = 0xff50;
/// Work RAM bank number.
pub const WRAMBANK: u16 = 0xff70;
/// High RAM.
pub const ZERO_PAGE: (u16, u16) = (0xff80, 0xfffe);
/// Interrupt enable register.
pub const IEN: u16 = 0xffff;

/// The offset of `address` within the inclusive range `range`, if it lies
/// in it.
pub open spec fn spec_in_range(address: u16, range: (u16, u16)) -> Option<u16> {
    if range.0 <= address && address <= range.1 {
        Some((address - range.0) as u16)
    } else {
        None
    }
}

/// `Some(offset)` if `address` lies in the inclusive range `range`, where
/// `offset` is its distance from the start of the range; `None` otherwise.
pub fn in_range(address: u16, range: (u16, u16)) -> (r: Option<u16>)
    ensures
        r == spec_in_range(address, range),
        r is Some <==> range.0 <= address <= range.1,
        r is Some ==> r->0 + range.0 == address,
{
    let (first, last) = range;
    if address >= first && address <= last {
        Some(address - first)
    } else {
        None
    }
}

/// The number of addresses in `range`. The whole address space has one
/// more address than a `u16` can count, so it is left out.
pub fn range_size(range: (u16, u16)) -> (n: u16)
    requires
        range.0 <= range.1,
        range.1 - range.0 < 0xffff,
    ensures
        n == range.1 - range.0 + 1,
{
    let (first, last) = range;
    last - first + 1
}

} // verus!
