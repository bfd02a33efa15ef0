//! The serial port: a data and a control register, with no transport
//! behind them.

use vstd::prelude::*;

verus! {

/// The serial port registers.
#[derive(Debug, Copy, Clone, PartialEq, Eq, Structural)]
pub struct Serial {
    /// Serial data (`0xff01`).
    pub data: u8,
    /// Serial control (`0xff02`).
    pub control: u8,
}

impl Serial {
    /// Both registers zero.
    pub fn new() -> (s: Serial)
        ensures
            s == (Serial { data: 0, control: 0 }),
    {
        Serial { data: 0, control: 0 }
    }

    /// What a read of `address` yields.
    pub open spec fn spec_read(self, address: u16) -> u8 {
        if address == 0xff01 {
            self.data
        } else {
            self.control
        }
    }

    /// The port after `value` is written to `address`.
    pub open spec fn spec_write(self, address: u16, value: u8) -> Serial {
        if address == 0xff01 {
            Serial { data: value, ..self }
        } else {
            Serial { control: value, ..self }
        }
    }

    /// Reads the register at `address`, one of `0xff01` and `0xff02`.
    pub fn read_byte(&self, address: u16) -> (v: u8)
        requires
            address == 0xff01 || address == 0xff02,
        ensures
            v == self.spec_read(address),
    {
        if address == 0xff01 {
            self.data
        } else {
            self.control
        }
    }

    /// Writes the register at `address`, one of `0xff01` and `0xff02`.
    pub fn write_byte(&mut self, address: u16, value: u8)
        requires
            address == 0xff01 || address == 0xff02,
        ensures
            *final(self) == old(self).spec_write(address, value),
    {
        if address == 0xff01 {
            self.data = value;
        } else {
            self.control = value;
        }
    }
}

} // verus!
