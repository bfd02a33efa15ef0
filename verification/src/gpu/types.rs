//! The picture that the core produces.

use vstd::prelude::*;

verus! {

/// The width of the screen, in pixels.
pub const SCREEN_WIDTH: usize = 160;

/// The height of the screen, in pixels.
pub const SCREEN_HEIGHT: usize = 144;

/// The number of pixels of the screen.
pub const SCREEN_PIXELS: usize = 23040;

/// The four shades of a pixel.
#[derive(Debug, Copy, Clone, PartialEq, Eq, Structural)]
pub enum Color {
    Off,
    Light,
    Dark,
    On,
}

/// A picture: `SCREEN_PIXELS` shades, row by row.
pub type ScreenBuffer = Vec<Color>;

impl Color {
    /// The shade numbered `value`: 1 is `Light`, 2 is `Dark`, 3 is `On`,
    /// anything else is `Off`.
    pub open spec fn spec_from_u8(value: u8) -> Color {
        if value == 1 {
            Color::Light
        } else if value == 2 {
            Color::Dark
        } else if value == 3 {
            Color::On
        } else {
            Color::Off
        }
    }

    /// The number of the shade, 0 to 3.
    pub open spec fn spec_index(self) -> u8 {
        match self {
            Color::Off => 0,
            Color::Light => 1,
            Color::Dark => 2,
            Color::On => 3,
        }
    }

    /// The shade numbered `value`.
    #[inline]
    pub fn from_u8(value: u8) -> (c: Color)
        ensures
            c == Color::spec_from_u8(value),
            value <= 3 ==> c.spec_index() == value,
    {
        match value {
            1 => Color::Light,
            2 => Color::Dark,
            3 => Color::On,
            _ => Color::Off,
        }
    }

    /// The number of the shade.
    pub fn index(&self) -> (n: u8)
        ensures
            n == self.spec_index(),
            n <= 3,
            Color::spec_from_u8(n) == *self,
    {
        match *self {
            Color::Off => 0,
            Color::Light => 1,
            Color::Dark => 2,
            Color::On => 3,
        }
    }
}

} // verus!
