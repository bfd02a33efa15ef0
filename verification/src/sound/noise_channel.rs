//! The noise channel: a shift register with feedback.

use vstd::prelude::*;
use crate::sound::volume_envelope::VolumeEnvelope;

verus! {

/// The noise channel.
#[derive(Debug, Copy, Clone, PartialEq, Eq, Structural)]
pub struct NoiseChannel {
    /// Whether the channel sounds.
    pub enabled: bool,
    /// Length steps left until the channel stops, if the length is enabled.
    pub length: u8,
    /// The length that the next load gives.
    pub new_length: u8,
    /// Whether the length counter stops the channel.
    pub length_enabled: bool,
    /// The envelope.
    pub volume_envelope: VolumeEnvelope,
    /// Clock ticks per step of the shift register.
    pub period: u32,
    /// The bit of the shift register that is put out: 14, or 6 in the
    /// short mode.
    pub shift_width: u8,
    /// The shift register.
    pub state: u16,
    /// Clock ticks spent in the current step.
    pub delay: u32,
}

/// The shift register one step later: everything moves up one bit, and
/// the new low bit is the exclusive or of the two bits that were at and
/// just below the output position.
pub open spec fn spec_shift(state: u16, shift_width: u8) -> u16 {
    let moved: u16 = state << 1;
    moved | (((state >> (shift_width % 16)) ^ (moved >> (shift_width % 16))) & 1)
}

impl NoiseChannel {
    /// A silent channel.
    pub open spec fn spec_new() -> NoiseChannel {
        NoiseChannel {
            enabled: false,
            length: 0,
            new_length: 0,
            length_enabled: false,
            volume_envelope: VolumeEnvelope {
                period: 0,
                goes_up: false,
                delay: 0,
                initial_volume: 0,
                volume: 0,
            },
            period: 2048,
            shift_width: 14,
            state: 1,
            delay: 0,
        }
    }

    /// The channel after the registers took `value` at `address`, the
    /// envelope not counted.
    pub open spec fn spec_write_registers(self, address: u16, value: u8) -> NoiseChannel {
        if address == 0x20 {
            NoiseChannel { new_length: (64 - value % 64) as u8, ..self }
        } else if address == 0x22 {
            let divisor: u32 = if value % 8 == 0 { 8 } else { ((value % 8 + 1) * 16) as u32 };
            NoiseChannel {
                shift_width: if (value / 8) % 2 == 1 { 6 } else { 14 },
                period: divisor << (value / 16),
                ..self
            }
        } else if address == 0x23 {
            let counted = NoiseChannel { length_enabled: (value / 64) % 2 == 1, ..self };
            if value >= 0x80 {
                NoiseChannel {
                    enabled: true,
                    length: if self.length == 0 { self.new_length } else { self.length },
                    state: 0xff,
                    delay: 0,
                    ..counted
                }
            } else {
                counted
            }
        } else {
            self
        }
    }

    /// The channel after `value` is written to the register at `address`
    /// (an offset from `0xff00`).
    pub open spec fn spec_write(self, address: u16, value: u8) -> NoiseChannel {
        let written = self.spec_write_registers(address, value);
        NoiseChannel {
            volume_envelope: written.volume_envelope.spec_write(address, value),
            ..written
        }
    }

    /// The channel one length step later.
    pub open spec fn spec_step_length(self) -> NoiseChannel {
        if self.length_enabled && self.length != 0 {
            NoiseChannel {
                length: (self.length - 1) as u8,
                enabled: self.enabled && self.length != 1,
                ..self
            }
        } else {
            self
        }
    }

    /// The channel one clock tick later.
    pub open spec fn spec_tick(self) -> NoiseChannel {
        if !self.enabled || self.period == 0 {
            self
        } else if self.delay + 1 >= self.period {
            NoiseChannel { delay: 0, state: spec_shift(self.state, self.shift_width), ..self }
        } else {
            NoiseChannel { delay: (self.delay + 1) as u32, ..self }
        }
    }

    /// What the channel puts out: plus or minus its volume, as the output
    /// bit of the shift register says; nothing while it does not sound.
    pub open spec fn spec_amplitude(self) -> int {
        if !self.enabled {
            0
        } else if (self.state >> (self.shift_width % 16)) & 1 == 0 {
            -(self.volume_envelope.volume as int)
        } else {
            self.volume_envelope.volume as int
        }
    }

    /// A silent channel.
    pub fn new() -> (c: NoiseChannel)
        ensures
            c == NoiseChannel::spec_new(),
    {
        NoiseChannel {
            enabled: false,
            length: 0,
            new_length: 0,
            length_enabled: false,
            volume_envelope: VolumeEnvelope::new(),
            period: 2048,
            shift_width: 14,
            state: 1,
            delay: 0,
        }
    }

    /// Whether the channel sounds.
    pub fn on(&self) -> (on: bool)
        ensures
            on == self.enabled,
    {
        self.enabled
    }

    /// Takes a write to a register of the channel: length (`0x20`),
    /// envelope (`0x21`), polynomial counter (`0x22`), length enable and
    /// trigger (`0x23`).
    pub fn write_byte(&mut self, address: u16, value: u8)
        ensures
            *final(self) == old(self).spec_write(address, value),
            old(self).volume_envelope.spec_in_range()
                ==> final(self).volume_envelope.spec_in_range(),
    {
        if address == 0x20 {
            self.new_length = 64 - value % 64;
        } else if address == 0x22 {
            self.shift_width = if (value / 8) % 2 == 1 {
                6
            } else {
                14
            };
            let divisor: u32 = if value % 8 == 0 {
                8
            } else {
                ((value % 8) as u32 + 1) * 16
            };
            self.period = divisor << (value / 16);
        } else if address == 0x23 {
            self.length_enabled = (value / 64) % 2 == 1;
            if value >= 0x80 {
                self.enabled = true;
                if self.length == 0 {
                    self.length = self.new_length;
                }
                self.state = 0xff;
                self.delay = 0;
            }
        }
        self.volume_envelope.write_byte(address, value);
    }

    /// Advances the length counter by one length step (256 Hz).
    pub fn step_length(&mut self)
        ensures
            *final(self) == old(self).spec_step_length(),
    {
        if self.length_enabled && self.length != 0 {
            self.length -= 1;
            if self.length == 0 {
                self.enabled = false;
            }
        }
    }

    /// Advances the shift register by one clock tick.
    pub fn tick(&mut self)
        ensures
            *final(self) == old(self).spec_tick(),
    {
        if !self.enabled || self.period == 0 {
            return ;
        }
        if self.delay >= self.period - 1 {
            self.delay = 0;
            let old_state = self.state;
            let moved: u16 = old_state << 1;
            let width = self.shift_width % 16;
            self.state = moved | (((old_state >> width) ^ (moved >> width)) & 1);
        } else {
            self.delay += 1;
        }
    }

    /// What the channel puts out now.
    pub fn amplitude(&self) -> (a: i32)
        ensures
            a == self.spec_amplitude(),
            -self.volume_envelope.volume <= a <= self.volume_envelope.volume,
    {
        if !self.enabled {
            0
        } else if (self.state >> (self.shift_width % 16)) & 1 == 0 {
            -(self.volume_envelope.volume as i32)
        } else {
            self.volume_envelope.volume as i32
        }
    }
}

} // verus!
