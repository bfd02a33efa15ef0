//! The joypad: eight keys read through a matrix of two rows.

use vstd::prelude::*;
use crate::types::GbKey;

verus! {

/// The joypad register `P1`, with bits inverted inside the core: a set bit
/// means "selected" or "pressed".
#[derive(Debug, Copy, Clone, PartialEq, Eq, Structural)]
pub struct P1 {
    /// Bits 0 to 3 are the input lines, bits 4 and 5 the selects.
    pub bits: u8,
}

/// Input line 0: right or A.
pub const P10: u8 = 0x01;
/// Input line 1: left or B.
pub const P11: u8 = 0x02;
/// Input line 2: up or select.
pub const P12: u8 = 0x04;
/// Input line 3: down or start.
pub const P13: u8 = 0x08;
/// Selects the row of the directions.
pub const SELECT_DIRECTIONAL: u8 = 0x10;
/// Selects the row of the buttons.
pub const SELECT_BUTTON: u8 = 0x20;
/// The bits that a write can change: the two selects.
pub const WRITABLE: u8 = 0x30;

impl P1 {
    /// The input line of a direction key; no line for a button.
    pub open spec fn spec_directional(key: GbKey) -> u8 {
        match key {
            GbKey::Right => P10,
            GbKey::Left => P11,
            GbKey::Up => P12,
            GbKey::Down => P13,
            _ => 0,
        }
    }

    /// The input line of a button; no line for a direction key.
    pub open spec fn spec_buttons(key: GbKey) -> u8 {
        match key {
            GbKey::A => P10,
            GbKey::B => P11,
            GbKey::Select => P12,
            GbKey::Start => P13,
            _ => 0,
        }
    }

    /// The input line that `key` pulls in the row of the directions.
    pub fn directional(key: &GbKey) -> (p: P1)
        ensures
            p.bits == P1::spec_directional(*key),
    {
        match *key {
            GbKey::Right => P1 { bits: P10 },
            GbKey::Left => P1 { bits: P11 },
            GbKey::Up => P1 { bits: P12 },
            GbKey::Down => P1 { bits: P13 },
            _ => P1 { bits: 0 },
        }
    }

    /// The input line that `key` pulls in the row of the buttons.
    pub fn buttons(key: &GbKey) -> (p: P1)
        ensures
            p.bits == P1::spec_buttons(*key),
    {
        match *key {
            GbKey::A => P1 { bits: P10 },
            GbKey::B => P1 { bits: P11 },
            GbKey::Select => P1 { bits: P12 },
            GbKey::Start => P1 { bits: P13 },
            _ => P1 { bits: 0 },
        }
    }
}

/// The joypad: which keys are down, and the register through which the
/// program sees them.
#[derive(Debug, Copy, Clone, PartialEq, Eq, Structural)]
pub struct Joypad {
    /// The direction keys that are down, as input lines.
    pub directional: P1,
    /// The buttons that are down, as input lines.
    pub button: P1,
    /// The two select bits, and the input lines as last computed.
    pub register: P1,
}

/// The register for the selects in `register` and the keys that are down:
/// the lines of each selected row, or-ed together.
pub open spec fn spec_lines(register: u8, directional: u8, button: u8) -> u8 {
    let select = register & WRITABLE;
    let with_directions = if select & SELECT_DIRECTIONAL != 0 {
        select | directional
    } else {
        select
    };
    if select & SELECT_BUTTON != 0 {
        with_directions | button
    } else {
        with_directions
    }
}

impl Joypad {
    /// No key down, no row selected.
    pub fn new() -> (j: Joypad)
        ensures
            j == (Joypad {
                directional: P1 { bits: 0 },
                button: P1 { bits: 0 },
                register: P1 { bits: 0 },
            }),
            j.spec_read() == 0xff,
    {
        assert(0u8 & 0x30u8 == 0u8 && 0u8 & 0x10u8 == 0u8 && 0u8 & 0x20u8 == 0u8 && !0u8
            == 0xffu8) by (bit_vector);
        Joypad { directional: P1 { bits: 0 }, button: P1 { bits: 0 }, register: P1 { bits: 0 } }
    }

    /// What the program reads: every bit inverted, so that 0 means
    /// "selected" or "pressed".
    pub open spec fn spec_read(self) -> u8 {
        !spec_lines(self.register.bits, self.directional.bits, self.button.bits)
    }

    /// The joypad with the input lines of its register brought up to date.
    pub open spec fn spec_updated(self) -> Joypad {
        Joypad {
            register: P1 {
                bits: spec_lines(self.register.bits, self.directional.bits, self.button.bits),
            },
            ..self
        }
    }

    /// The joypad after the program writes `value`: only the two select
    /// bits are taken, inverted.
    pub open spec fn spec_write(self, value: u8) -> Joypad {
        (Joypad { register: P1 { bits: !value & 0x3f }, ..self }).spec_updated()
    }

    /// The joypad after `key` goes down.
    pub open spec fn spec_press(self, key: GbKey) -> Joypad {
        (Joypad {
            directional: P1 { bits: self.directional.bits | P1::spec_directional(key) },
            button: P1 { bits: self.button.bits | P1::spec_buttons(key) },
            ..self
        }).spec_updated()
    }

    /// The joypad after `key` goes up.
    pub open spec fn spec_release(self, key: GbKey) -> Joypad {
        (Joypad {
            directional: P1 { bits: self.directional.bits & !P1::spec_directional(key) },
            button: P1 { bits: self.button.bits & !P1::spec_buttons(key) },
            ..self
        }).spec_updated()
    }

    /// Reads the register. The input lines are computed from the keys that
    /// are down at the moment of the read.
    pub fn get_register(&self) -> (v: u8)
        ensures
            v == self.spec_read(),
    {
        let select = self.register.bits & WRITABLE;
        let mut lines = select;
        if select & SELECT_DIRECTIONAL != 0 {
            lines = lines | self.directional.bits;
        }
        if select & SELECT_BUTTON != 0 {
            lines = lines | self.button.bits;
        }
        !lines
    }

    /// Writes the register: the two select bits are stored, the rest of
    /// `value` is ignored.
    pub fn set_register(&mut self, value: u8)
        ensures
            *final(self) == old(self).spec_write(value),
    {
        self.register = P1 { bits: !value & 0x3f };
        self.update_register();
    }

    /// Recomputes the input lines of the register from the selects and the
    /// keys that are down.
    pub fn update_register(&mut self)
        ensures
            *final(self) == old(self).spec_updated(),
    {
        let select = self.register.bits & WRITABLE;
        let mut lines = select;
        if select & SELECT_DIRECTIONAL != 0 {
            lines = lines | self.directional.bits;
        }
        if select & SELECT_BUTTON != 0 {
            lines = lines | self.button.bits;
        }
        self.register = P1 { bits: lines };
    }

    /// Records that `key` went down.
    pub fn press(&mut self, key: GbKey)
        ensures
            *final(self) == old(self).spec_press(key),
    {
        let d = P1::directional(&key);
        let b = P1::buttons(&key);
        self.directional = P1 { bits: self.directional.bits | d.bits };
        self.button = P1 { bits: self.button.bits | b.bits };
        self.update_register();
    }

    /// Records that `key` went up.
    pub fn release(&mut self, key: GbKey)
        ensures
            *final(self) == old(self).spec_release(key),
    {
        let d = P1::directional(&key);
        let b = P1::buttons(&key);
        self.directional = P1 { bits: self.directional.bits & !d.bits };
        self.button = P1 { bits: self.button.bits & !b.bits };
        self.update_register();
    }
}

} // verus!
