//! The wave channel: 32 four-bit samples played in a loop.

use vstd::prelude::*;

verus! {

/// The number of bytes of wave RAM; each holds two samples.
pub const WAVE_RAM_SIZE: usize = 16;

/// The registers and counters of the wave channel.
#[derive(Debug, Copy, Clone, PartialEq, Eq, Structural)]
pub struct WaveState {
    /// Whether the channel sounds.
    pub enabled: bool,
    /// Whether the converter of the channel is on (NR30 bit 7).
    pub enabled_flag: bool,
    /// Length steps left until the channel stops, if the length is enabled.
    pub length: u16,
    /// The length that the next load gives.
    pub new_length: u16,
    /// Whether the length counter stops the channel.
    pub length_enabled: bool,
    /// The 11-bit frequency register.
    pub frequency: u16,
    /// Clock ticks per sample; 0 silences the channel.
    pub period: u32,
    /// Clock ticks spent in the current sample.
    pub delay: u32,
    /// The output level: 0 mutes, 1 is full, 2 is half, 3 is a quarter.
    pub volume_shift: u8,
    /// The sample being played, 0 to 31.
    pub current_wave: u8,
}

/// The clock ticks per sample for a frequency register value.
pub open spec fn spec_wave_period(frequency: u16) -> u32 {
    if frequency > 2048 {
        0
    } else {
        ((2048 - frequency) * 2) as u32
    }
}

/// Sample `index` of the wave RAM: the high nibble of a byte comes first.
pub open spec fn spec_sample(waveram: Seq<u8>, index: u8) -> u8 {
    let byte = waveram[(index % 32) as int / 2];
    if index % 2 == 0 {
        byte / 16
    } else {
        byte % 16
    }
}

impl WaveState {
    /// A silent channel.
    pub open spec fn spec_new() -> WaveState {
        WaveState {
            enabled: false,
            enabled_flag: false,
            length: 0,
            new_length: 0,
            length_enabled: false,
            frequency: 0,
            period: 2048,
            delay: 0,
            volume_shift: 0,
            current_wave: 0,
        }
    }

    /// The state after `value` is written to the register at `address`.
    pub open spec fn spec_write(self, address: u16, value: u8) -> WaveState {
        if address == 0x1a {
            WaveState { enabled_flag: value >= 0x80, enabled: self.enabled && value >= 0x80, ..self }
        } else if address == 0x1b {
            WaveState { new_length: (256 - value) as u16, ..self }
        } else if address == 0x1c {
            WaveState { volume_shift: (value / 32) % 4, ..self }
        } else if address == 0x1d {
            let frequency = ((self.frequency / 256) * 256 + value) as u16;
            WaveState { frequency, period: spec_wave_period(frequency), ..self }
        } else if address == 0x1e {
            let frequency = (self.frequency % 256 + (value % 8) * 256) as u16;
            let tuned = WaveState {
                frequency,
                period: spec_wave_period(frequency),
                length_enabled: (value / 64) % 2 == 1,
                ..self
            };
            if value >= 0x80 && self.enabled_flag {
                WaveState {
                    length: if self.length == 0 { self.new_length } else { self.length },
                    enabled: true,
                    current_wave: 0,
                    delay: 0,
                    ..tuned
                }
            } else {
                tuned
            }
        } else {
            self
        }
    }

    /// The state one length step later.
    pub open spec fn spec_step_length(self) -> WaveState {
        if self.length_enabled && self.length != 0 {
            WaveState {
                length: (self.length - 1) as u16,
                enabled: self.enabled && self.length != 1,
                ..self
            }
        } else {
            self
        }
    }

    /// The state one clock tick later.
    pub open spec fn spec_tick(self) -> WaveState {
        if !self.enabled || self.period == 0 {
            self
        } else if self.delay + 1 >= self.period {
            WaveState { delay: 0, current_wave: ((self.current_wave % 32 + 1) % 32) as u8, ..self }
        } else {
            WaveState { delay: (self.delay + 1) as u32, ..self }
        }
    }
}

/// The wave channel, as mathematics.
pub struct WaveChannelView {
    /// Registers and counters.
    pub st: WaveState,
    /// The 16 bytes of wave RAM.
    pub waveram: Seq<u8>,
}

impl WaveChannelView {
    /// The wave RAM has its size.
    pub open spec fn wf(self) -> bool {
        self.waveram.len() == WAVE_RAM_SIZE
    }

    /// The channel after `value` is written at `address` (an offset from
    /// `0xff00`): a register, or a byte of wave RAM at `0x30..=0x3f`.
    pub open spec fn spec_write(self, address: u16, value: u8) -> WaveChannelView {
        if 0x30 <= address <= 0x3f {
            WaveChannelView { waveram: self.waveram.update(address - 0x30, value), ..self }
        } else {
            WaveChannelView { st: self.st.spec_write(address, value), ..self }
        }
    }

    /// What the channel puts out: the current sample, scaled down by the
    /// output level; nothing while it does not sound or is muted.
    pub open spec fn spec_amplitude(self) -> int {
        if !self.st.enabled || self.st.volume_shift % 4 == 0 {
            0
        } else {
            let sample = spec_sample(self.waveram, self.st.current_wave);
            if self.st.volume_shift % 4 == 1 {
                sample as int
            } else if self.st.volume_shift % 4 == 2 {
                sample as int / 2
            } else {
                sample as int / 4
            }
        }
    }
}

/// The wave channel.
pub struct WaveChannel {
    st: WaveState,
    waveram: Vec<u8>,
}

impl View for WaveChannel {
    type V = WaveChannelView;

    closed spec fn view(&self) -> WaveChannelView {
        WaveChannelView { st: self.st, waveram: self.waveram@ }
    }
}

impl WaveChannel {
    /// The invariant of the channel.
    pub open spec fn wf(&self) -> bool {
        self@.wf()
    }

    /// A silent channel with the wave RAM zeroed.
    pub fn new() -> (c: WaveChannel)
        ensures
            c.wf(),
            c@ == (WaveChannelView {
                st: WaveState::spec_new(),
                waveram: Seq::new(16, |i: int| 0u8),
            }),
    {
        let mut waveram: Vec<u8> = Vec::new();
        let mut i: usize = 0;
        while i < WAVE_RAM_SIZE
            invariant
                i <= WAVE_RAM_SIZE,
                waveram@.len() == i,
                forall|k: int| 0 <= k < i ==> waveram@[k] == 0u8,
            decreases WAVE_RAM_SIZE - i,
        {
            waveram.push(0);
            i += 1;
        }
        assert(waveram@ =~= Seq::new(16, |i: int| 0u8));
        WaveChannel {
            st: WaveState {
                enabled: false,
                enabled_flag: false,
                length: 0,
                new_length: 0,
                length_enabled: false,
                frequency: 0,
                period: 2048,
                delay: 0,
                volume_shift: 0,
                current_wave: 0,
            },
            waveram,
        }
    }

    /// Whether the channel sounds.
    pub fn on(&self) -> (on: bool)
        ensures
            on == self@.st.enabled,
    {
        self.st.enabled
    }

    /// The byte of wave RAM at `index`.
    pub fn ram_byte(&self, index: usize) -> (v: u8)
        requires
            self.wf(),
            index < 16,
        ensures
            v == self@.waveram[index as int],
    {
        self.waveram[index]
    }

    /// Takes a write at `address`: converter on (`0x1a`), length (`0x1b`),
    /// output level (`0x1c`), frequency low (`0x1d`), frequency high,
    /// length enable and trigger (`0x1e`), wave RAM (`0x30..=0x3f`).
    pub fn write_byte(&mut self, address: u16, value: u8)
        requires
            old(self).wf(),
        ensures
            final(self).wf(),
            final(self)@ == old(self)@.spec_write(address, value),
    {
        if 0x30 <= address && address <= 0x3f {
            self.waveram.set((address - 0x30) as usize, value);
        } else if address == 0x1a {
            self.st.enabled_flag = value >= 0x80;
            self.st.enabled = self.st.enabled && self.st.enabled_flag;
        } else if address == 0x1b {
            self.st.new_length = 256 - (value as u16);
        } else if address == 0x1c {
            self.st.volume_shift = (value / 32) % 4;
        } else if address == 0x1d {
            self.st.frequency = (self.st.frequency / 256) * 256 + (value as u16);
            self.calculate_period();
        } else if address == 0x1e {
            self.st.frequency = self.st.frequency % 256 + ((value % 8) as u16) * 256;
            self.calculate_period();
            self.st.length_enabled = (value / 64) % 2 == 1;
            if value >= 0x80 && self.st.enabled_flag {
                if self.st.length == 0 {
                    self.st.length = self.st.new_length;
                }
                self.st.enabled = true;
                self.st.current_wave = 0;
                self.st.delay = 0;
            }
        }
    }

    /// Recomputes the period from the frequency register.
    fn calculate_period(&mut self)
        ensures
            final(self)@ == (WaveChannelView {
                st: WaveState { period: spec_wave_period(old(self)@.st.frequency), ..old(self)@.st },
                ..old(self)@
            }),
    {
        if self.st.frequency > 2048 {
            self.st.period = 0;
        } else {
            self.st.period = (2048 - self.st.frequency as u32) * 2;
        }
    }

    /// Advances the length counter by one length step (256 Hz).
    pub fn step_length(&mut self)
        ensures
            final(self)@ == (WaveChannelView {
                st: old(self)@.st.spec_step_length(),
                ..old(self)@
            }),
    {
        if self.st.length_enabled && self.st.length != 0 {
            self.st.length -= 1;
            if self.st.length == 0 {
                self.st.enabled = false;
            }
        }
    }

    /// Advances the playback by one clock tick.
    pub fn tick(&mut self)
        ensures
            final(self)@ == (WaveChannelView { st: old(self)@.st.spec_tick(), ..old(self)@ }),
    {
        if !self.st.enabled || self.st.period == 0 {
            return ;
        }
        if self.st.delay >= self.st.period - 1 {
            self.st.delay = 0;
            self.st.current_wave = (self.st.current_wave % 32 + 1) % 32;
        } else {
            self.st.delay += 1;
        }
    }

    /// What the channel puts out now.
    pub fn amplitude(&self) -> (a: i32)
        requires
            self.wf(),
        ensures
            a == self@.spec_amplitude(),
            0 <= a <= 15,
    {
        let level = self.st.volume_shift % 4;
        if !self.st.enabled || level == 0 {
            return 0;
        }
        let index = self.st.current_wave % 32;
        let byte = self.waveram[(index / 2) as usize];
        let sample = if index % 2 == 0 {
            byte / 16
        } else {
            byte % 16
        };
        if level == 1 {
            sample as i32
        } else if level == 2 {
            (sample / 2) as i32
        } else {
            (sample / 4) as i32
        }
    }
}

} // verus!
