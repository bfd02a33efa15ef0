//! The volume envelope of a channel.

use vstd::prelude::*;

verus! {

/// A volume that steps up or down at a set pace.
#[derive(Debug, Copy, Clone, PartialEq, Eq, Structural)]
pub struct VolumeEnvelope {
    /// Envelope steps between two volume changes; 0 stops the envelope.
    pub period: u8,
    /// Whether the volume rises.
    pub goes_up: bool,
    /// Envelope steps left until the next change.
    pub delay: u8,
    /// The volume that a trigger restores.
    pub initial_volume: u8,
    /// The volume now, 0 to 15.
    pub volume: u8,
}

impl VolumeEnvelope {
    /// Whether both volumes are volumes: 0 to 15.
    pub open spec fn spec_in_range(self) -> bool {
        self.volume <= 15 && self.initial_volume <= 15
    }

    /// Whether `address` is an envelope register (NR12, NR22, NR42).
    pub open spec fn spec_is_envelope(address: u16) -> bool {
        address == 0x12 || address == 0x17 || address == 0x21
    }

    /// Whether `address` is a trigger register (NR14, NR24, NR44).
    pub open spec fn spec_is_trigger(address: u16) -> bool {
        address == 0x14 || address == 0x19 || address == 0x23
    }

    /// The envelope after `value` is written to the register at `address`.
    /// An envelope register sets pace (bits 2 to 0), direction (bit 3) and
    /// volume (bits 7 to 4). A trigger (bit 7 of a trigger register)
    /// reloads delay and volume.
    pub open spec fn spec_write(self, address: u16, value: u8) -> VolumeEnvelope {
        if Self::spec_is_envelope(address) {
            VolumeEnvelope {
                period: value % 8,
                goes_up: (value / 8) % 2 == 1,
                initial_volume: value / 16,
                volume: value / 16,
                ..self
            }
        } else if Self::spec_is_trigger(address) && value >= 0x80 {
            VolumeEnvelope { delay: self.period, volume: self.initial_volume, ..self }
        } else {
            self
        }
    }

    /// The envelope one envelope step later.
    pub open spec fn spec_step(self) -> VolumeEnvelope {
        if self.delay > 1 {
            VolumeEnvelope { delay: (self.delay - 1) as u8, ..self }
        } else if self.delay == 1 {
            VolumeEnvelope {
                delay: self.period,
                volume: if self.goes_up && self.volume < 15 {
                    (self.volume + 1) as u8
                } else if !self.goes_up && self.volume > 0 {
                    (self.volume - 1) as u8
                } else {
                    self.volume
                },
                ..self
            }
        } else {
            self
        }
    }

    /// A silent envelope that does not move.
    pub fn new() -> (e: VolumeEnvelope)
        ensures
            e == (VolumeEnvelope {
                period: 0,
                goes_up: false,
                delay: 0,
                initial_volume: 0,
                volume: 0,
            }),
    {
        VolumeEnvelope { period: 0, goes_up: false, delay: 0, initial_volume: 0, volume: 0 }
    }

    /// Takes a write to a register of the channel.
    pub fn write_byte(&mut self, address: u16, value: u8)
        ensures
            *final(self) == old(self).spec_write(address, value),
            old(self).spec_in_range() ==> final(self).spec_in_range(),
    {
        if address == 0x12 || address == 0x17 || address == 0x21 {
            self.period = value % 8;
            self.goes_up = (value / 8) % 2 == 1;
            self.initial_volume = value / 16;
            self.volume = self.initial_volume;
        } else if (address == 0x14 || address == 0x19 || address == 0x23) && value >= 0x80 {
            self.delay = self.period;
            self.volume = self.initial_volume;
        }
    }

    /// Advances the envelope by one envelope step (64 Hz).
    pub fn step(&mut self)
        ensures
            *final(self) == old(self).spec_step(),
            old(self).spec_in_range() ==> final(self).spec_in_range(),
    {
        if self.delay > 1 {
            self.delay -= 1;
        } else if self.delay == 1 {
            self.delay = self.period;
            if self.goes_up && self.volume < 15 {
                self.volume += 1;
            } else if !self.goes_up && self.volume > 0 {
                self.volume -= 1;
            }
        }
    }
}

} // verus!
