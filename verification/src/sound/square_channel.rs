//! The two pulse channels; the first has a frequency sweep.

use vstd::prelude::*;
use crate::sound::volume_envelope::VolumeEnvelope;

verus! {

/// A pulse channel.
#[derive(Debug, Copy, Clone, PartialEq, Eq, Structural)]
pub struct SquareChannel {
    /// Whether the channel sounds.
    pub enabled: bool,
    /// The duty pattern, 0 to 3.
    pub duty: u8,
    /// The position in the duty pattern, 0 to 7.
    pub phase: u8,
    /// Length steps left until the channel stops, if the length is enabled.
    pub length: u8,
    /// The length that the next load gives.
    pub new_length: u8,
    /// Whether the length counter stops the channel.
    pub length_enabled: bool,
    /// The 11-bit frequency register.
    pub frequency: u16,
    /// Clock ticks per step of the duty pattern; 0 silences the channel.
    pub period: u32,
    /// Clock ticks spent in the current step of the pattern.
    pub delay: u32,
    /// Whether this is the channel with the sweep unit.
    pub has_sweep: bool,
    /// The frequency that the sweep unit works on.
    pub sweep_frequency: u16,
    /// Sweep steps left until the next change.
    pub sweep_delay: u8,
    /// Sweep steps between two changes; 0 stops the sweep.
    pub sweep_period: u8,
    /// How far the frequency is shifted to get the change, 0 to 7.
    pub sweep_shift: u8,
    /// Whether the sweep lowers the frequency register.
    pub sweep_frequency_increase: bool,
    /// The envelope.
    pub volume_envelope: VolumeEnvelope,
}

/// Whether the duty pattern `duty` is high at `phase`. The patterns are
/// 12.5%, 25%, 50% and 75%.
pub open spec fn spec_duty_high(duty: u8, phase: u8) -> bool {
    if duty == 0 {
        phase == 4
    } else if duty == 1 {
        phase == 4 || phase == 5
    } else if duty == 2 {
        2 <= phase <= 5
    } else {
        phase <= 3 || phase == 6 || phase == 7
    }
}

/// The clock ticks per pattern step for a frequency register value.
pub open spec fn spec_square_period(frequency: u16) -> u32 {
    if frequency > 2048 {
        0
    } else {
        ((2048 - frequency) * 4) as u32
    }
}

impl SquareChannel {
    /// A silent channel.
    pub open spec fn spec_new(with_sweep: bool) -> SquareChannel {
        SquareChannel {
            enabled: false,
            duty: 1,
            phase: 1,
            length: 0,
            new_length: 0,
            length_enabled: false,
            frequency: 0,
            period: 2048,
            delay: 0,
            has_sweep: with_sweep,
            sweep_frequency: 0,
            sweep_delay: 0,
            sweep_period: 0,
            sweep_shift: 0,
            sweep_frequency_increase: false,
            volume_envelope: VolumeEnvelope {
                period: 0,
                goes_up: false,
                delay: 0,
                initial_volume: 0,
                volume: 0,
            },
        }
    }

    /// The channel with its period recomputed from its frequency.
    pub open spec fn spec_with_period(self) -> SquareChannel {
        SquareChannel { period: spec_square_period(self.frequency), ..self }
    }

    /// The channel one sweep step later. When the delay runs out the
    /// frequency register takes the swept frequency (2048 stops the
    /// channel), and the swept frequency moves by itself shifted right,
    /// staying within 0 and 2048.
    pub open spec fn spec_step_sweep(self) -> SquareChannel {
        if !self.has_sweep || self.sweep_period == 0 {
            self
        } else if self.sweep_delay > 1 {
            SquareChannel { sweep_delay: (self.sweep_delay - 1) as u8, ..self }
        } else {
            let offset = self.sweep_frequency >> (self.sweep_shift % 8);
            let swept: u16 = if self.sweep_frequency_increase {
                if self.sweep_frequency <= offset {
                    0
                } else {
                    (self.sweep_frequency - offset) as u16
                }
            } else if offset >= 2048 || self.sweep_frequency >= 2048 - offset {
                2048
            } else {
                (self.sweep_frequency + offset) as u16
            };
            SquareChannel {
                sweep_delay: self.sweep_period,
                frequency: self.sweep_frequency,
                enabled: self.enabled && self.sweep_frequency != 2048,
                period: spec_square_period(self.sweep_frequency),
                sweep_frequency: swept,
                ..self
            }
        }
    }

    /// The channel after a trigger: it sounds, a length that ran out is
    /// loaded again, and the sweep starts over from the frequency register.
    pub open spec fn spec_trigger(self) -> SquareChannel {
        let started = SquareChannel {
            enabled: true,
            length: if self.length == 0 { self.new_length } else { self.length },
            sweep_frequency: self.frequency,
            ..self
        };
        if self.has_sweep && self.sweep_period > 0 && self.sweep_shift > 0 {
            (SquareChannel { sweep_delay: 1, ..started }).spec_step_sweep()
        } else {
            started
        }
    }

    /// The channel after the registers took `value` at `address`, the
    /// envelope not counted.
    pub open spec fn spec_write_registers(self, address: u16, value: u8) -> SquareChannel {
        if address == 0x10 {
            SquareChannel {
                sweep_period: (value / 16) % 8,
                sweep_shift: value % 8,
                sweep_frequency_increase: (value / 8) % 2 == 1,
                ..self
            }
        } else if address == 0x11 || address == 0x16 {
            SquareChannel { duty: value / 64, new_length: (64 - value % 64) as u8, ..self }
        } else if address == 0x13 || address == 0x18 {
            (SquareChannel {
                frequency: ((self.frequency / 256) * 256 + value) as u16,
                length: self.new_length,
                ..self
            }).spec_with_period()
        } else if address == 0x14 || address == 0x19 {
            let tuned = (SquareChannel {
                frequency: (self.frequency % 256 + (value % 8) * 256) as u16,
                length_enabled: (value / 64) % 2 == 1,
                ..self
            }).spec_with_period();
            if value >= 0x80 {
                tuned.spec_trigger()
            } else {
                tuned
            }
        } else {
            self
        }
    }

    /// The channel after `value` is written to the register at `address`
    /// (an offset from `0xff00`).
    pub open spec fn spec_write(self, address: u16, value: u8) -> SquareChannel {
        let written = self.spec_write_registers(address, value);
        SquareChannel {
            volume_envelope: written.volume_envelope.spec_write(address, value),
            ..written
        }
    }

    /// The channel one length step later: an enabled length counts down
    /// and stops the channel at zero.
    pub open spec fn spec_step_length(self) -> SquareChannel {
        if self.length_enabled && self.length != 0 {
            SquareChannel {
                length: (self.length - 1) as u8,
                enabled: self.enabled && self.length != 1,
                ..self
            }
        } else {
            self
        }
    }

    /// The channel one clock tick later.
    pub open spec fn spec_tick(self) -> SquareChannel {
        if !self.enabled || self.period == 0 {
            self
        } else if self.delay + 1 >= self.period {
            SquareChannel { delay: 0, phase: ((self.phase % 8 + 1) % 8) as u8, ..self }
        } else {
            SquareChannel { delay: (self.delay + 1) as u32, ..self }
        }
    }

    /// What the channel puts out: plus or minus its volume, as the duty
    /// pattern is high or low; nothing while it does not sound.
    pub open spec fn spec_amplitude(self) -> int {
        if !self.enabled || self.period == 0 {
            0
        } else if spec_duty_high(self.duty, self.phase) {
            self.volume_envelope.volume as int
        } else {
            -(self.volume_envelope.volume as int)
        }
    }

    /// A silent channel, with the sweep unit or without.
    pub fn new(with_sweep: bool) -> (c: SquareChannel)
        ensures
            c == SquareChannel::spec_new(with_sweep),
    {
        SquareChannel {
            enabled: false,
            duty: 1,
            phase: 1,
            length: 0,
            new_length: 0,
            length_enabled: false,
            frequency: 0,
            period: 2048,
            delay: 0,
            has_sweep: with_sweep,
            sweep_frequency: 0,
            sweep_delay: 0,
            sweep_period: 0,
            sweep_shift: 0,
            sweep_frequency_increase: false,
            volume_envelope: VolumeEnvelope::new(),
        }
    }

    /// Whether the channel sounds.
    pub fn on(&self) -> (on: bool)
        ensures
            on == self.enabled,
    {
        self.enabled
    }

    /// Takes a write to a register of the channel: sweep (`0x10`), duty
    /// and length (`0x11`, `0x16`), envelope (`0x12`, `0x17`), frequency
    /// low (`0x13`, `0x18`), frequency high, length enable and trigger
    /// (`0x14`, `0x19`).
    pub fn write_byte(&mut self, address: u16, value: u8)
        ensures
            *final(self) == old(self).spec_write(address, value),
            old(self).volume_envelope.spec_in_range()
                ==> final(self).volume_envelope.spec_in_range(),
    {
        if address == 0x10 {
            self.sweep_period = (value / 16) % 8;
            self.sweep_shift = value % 8;
            self.sweep_frequency_increase = (value / 8) % 2 == 1;
        } else if address == 0x11 || address == 0x16 {
            self.duty = value / 64;
            self.new_length = 64 - value % 64;
        } else if address == 0x13 || address == 0x18 {
            self.frequency = (self.frequency / 256) * 256 + (value as u16);
            self.length = self.new_length;
            self.calculate_period();
        } else if address == 0x14 || address == 0x19 {
            self.frequency = self.frequency % 256 + ((value % 8) as u16) * 256;
            self.calculate_period();
            self.length_enabled = (value / 64) % 2 == 1;
            if value >= 0x80 {
                self.enabled = true;
                if self.length == 0 {
                    self.length = self.new_length;
                }
                self.sweep_frequency = self.frequency;
                if self.has_sweep && self.sweep_period > 0 && self.sweep_shift > 0 {
                    self.sweep_delay = 1;
                    self.step_sweep();
                }
            }
        }
        self.volume_envelope.write_byte(address, value);
    }

    /// Recomputes the period from the frequency register.
    fn calculate_period(&mut self)
        ensures
            *final(self) == old(self).spec_with_period(),
    {
        if self.frequency > 2048 {
            self.period = 0;
        } else {
            self.period = (2048 - self.frequency as u32) * 4;
        }
    }

    /// Advances the sweep unit by one sweep step (128 Hz).
    pub fn step_sweep(&mut self)
        ensures
            *final(self) == old(self).spec_step_sweep(),
    {
        if !self.has_sweep || self.sweep_period == 0 {
            return ;
        }
        if self.sweep_delay > 1 {
            self.sweep_delay -= 1;
        } else {
            self.sweep_delay = self.sweep_period;
            self.frequency = self.sweep_frequency;
            if self.frequency == 2048 {
                self.enabled = false;
            }
            self.calculate_period();
            let offset = self.sweep_frequency >> (self.sweep_shift % 8);
            if self.sweep_frequency_increase {
                if self.sweep_frequency <= offset {
                    self.sweep_frequency = 0;
                } else {
                    self.sweep_frequency -= offset;
                }
            } else if offset >= 2048 || self.sweep_frequency >= 2048 - offset {
                self.sweep_frequency = 2048;
            } else {
                self.sweep_frequency += offset;
            }
        }
    }

    /// Advances the length counter by one length step (256 Hz).
    pub fn step_length(&mut self)
        ensures
            *final(self) == old(self).spec_step_length(),
    {
        if self.length_enabled && self.length != 0 {
            self.length -= 1;
            if self.length == 0 {
                self.enabled = false;
            }
        }
    }

    /// Advances the waveform by one clock tick.
    pub fn tick(&mut self)
        ensures
            *final(self) == old(self).spec_tick(),
    {
        if !self.enabled || self.period == 0 {
            return ;
        }
        if self.delay >= self.period - 1 {
            self.delay = 0;
            self.phase = (self.phase % 8 + 1) % 8;
        } else {
            self.delay += 1;
        }
    }

    /// What the channel puts out now.
    pub fn amplitude(&self) -> (a: i32)
        ensures
            a == self.spec_amplitude(),
            -self.volume_envelope.volume <= a <= self.volume_envelope.volume,
    {
        if !self.enabled || self.period == 0 {
            return 0;
        }
        let p = self.phase;
        let high = match self.duty {
            0 => p == 4,
            1 => p == 4 || p == 5,
            2 => 2 <= p && p <= 5,
            _ => p <= 3 || p == 6 || p == 7,
        };
        if high {
            self.volume_envelope.volume as i32
        } else {
            -(self.volume_envelope.volume as i32)
        }
    }
}

} // verus!
