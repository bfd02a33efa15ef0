//! The sound unit: four channels, the frame sequencer that paces their
//! length counters, envelopes and sweep, and the mixer.

use vstd::prelude::*;
use crate::sound::noise_channel::NoiseChannel;
use crate::sound::square_channel::SquareChannel;
use crate::sound::wave_channel::WaveChannel;
use crate::sound::wave_channel::WaveChannelView;
use crate::sound::wave_channel::WaveState;

pub mod noise_channel;
pub mod square_channel;
pub mod volume_envelope;
pub mod wave_channel;

verus! {

/// Clock ticks per second.
pub const CLOCKS_PER_SECOND: u32 = 4194304;
/// The highest sample rate: one sample per machine cycle.
pub const MAX_SAMPLE_RATE: u32 = 1048576;
/// Clock ticks per step of the frame sequencer, which runs at 512 Hz.
pub const SEQUENCER_PERIOD: u16 = 8192;
/// The number of registers from NR10 to NR52.
pub const REGISTER_COUNT: usize = 0x17;
/// No sample is above this, or below its negative: four channels at
/// volume 15, scaled by the highest master volume plus one.
pub const SAMPLE_PEAK: i32 = 480;

/// The sound unit, as mathematics.
pub struct SoundView {
    /// Whether the unit is on (NR52 bit 7).
    pub enabled: bool,
    /// The registers `0x10..=0x26` as last written.
    pub registerdata: Seq<u8>,
    /// Channel 1: pulse with sweep.
    pub channel1: SquareChannel,
    /// Channel 2: pulse.
    pub channel2: SquareChannel,
    /// Channel 3: wave.
    pub channel3: WaveChannelView,
    /// Channel 4: noise.
    pub channel4: NoiseChannel,
    /// The master volume of the left output, 0 to 7.
    pub volume_left: u8,
    /// The master volume of the right output, 0 to 7.
    pub volume_right: u8,
    /// Samples per second that the host asks for.
    pub sample_rate: u32,
    /// What is left of the clock since the last sample, in units of one
    /// over `sample_rate` clock ticks.
    pub sample_clock: u32,
    /// Clock ticks since the last step of the frame sequencer.
    pub sequencer_clock: u16,
    /// The step that the frame sequencer takes next, 0 to 7.
    pub sequencer_step: u8,
    /// The samples of the left output that the host has not taken yet.
    pub left: Seq<i32>,
    /// The samples of the right output that the host has not taken yet.
    pub right: Seq<i32>,
}

/// Whether bit `bit` of `byte` is set.
pub open spec fn spec_routed(byte: u8, bit: int) -> bool {
    if bit == 0 {
        byte % 2 == 1
    } else if bit == 1 {
        (byte / 2) % 2 == 1
    } else if bit == 2 {
        (byte / 4) % 2 == 1
    } else if bit == 3 {
        (byte / 8) % 2 == 1
    } else if bit == 4 {
        (byte / 16) % 2 == 1
    } else if bit == 5 {
        (byte / 32) % 2 == 1
    } else if bit == 6 {
        (byte / 64) % 2 == 1
    } else {
        byte / 128 == 1
    }
}

/// Whether every sample lies between `-SAMPLE_PEAK` and `SAMPLE_PEAK`.
pub open spec fn spec_all_in_range(samples: Seq<i32>) -> bool {
    forall|i: int| 0 <= i < samples.len() ==> -SAMPLE_PEAK <= #[trigger] samples[i] <= SAMPLE_PEAK
}

/// `amplitude` if `routed`, else nothing.
pub open spec fn spec_gate(routed: bool, amplitude: int) -> int {
    if routed {
        amplitude
    } else {
        0
    }
}

impl SoundView {
    /// The sound unit at power-on: off, every register zero, both master
    /// volumes 7, no sample waiting. No more than one sample per machine
    /// cycle is made: a higher rate is taken as `MAX_SAMPLE_RATE`.
    pub open spec fn spec_new(samples_rate: u32) -> SoundView {
        SoundView {
            enabled: false,
            registerdata: Seq::new(REGISTER_COUNT as nat, |i: int| 0u8),
            channel1: SquareChannel::spec_new(true),
            channel2: SquareChannel::spec_new(false),
            channel3: WaveChannelView {
                st: WaveState::spec_new(),
                waveram: Seq::new(16, |i: int| 0u8),
            },
            channel4: NoiseChannel::spec_new(),
            volume_left: 7,
            volume_right: 7,
            sample_rate: if samples_rate > MAX_SAMPLE_RATE {
                MAX_SAMPLE_RATE
            } else {
                samples_rate
            },
            sample_clock: 0,
            sequencer_clock: 0,
            sequencer_step: 0,
            left: Seq::<i32>::empty(),
            right: Seq::<i32>::empty(),
        }
    }

    /// The invariant of the sound unit.
    pub open spec fn wf(self) -> bool {
        &&& self.registerdata.len() == REGISTER_COUNT
        &&& self.channel3.wf()
        &&& self.sample_rate <= MAX_SAMPLE_RATE
        &&& self.sample_clock < CLOCKS_PER_SECOND
        &&& self.sequencer_clock < SEQUENCER_PERIOD
        &&& self.left.len() == self.right.len()
        &&& self.channel1.volume_envelope.spec_in_range()
        &&& self.channel2.volume_envelope.spec_in_range()
        &&& self.channel4.volume_envelope.spec_in_range()
        &&& self.volume_left <= 7
        &&& self.volume_right <= 7
        &&& spec_all_in_range(self.left)
        &&& spec_all_in_range(self.right)
    }

    /// What a read at `address` (an offset from `0xff00`) yields: a
    /// register as last written; for NR52 the high nibble as written and a
    /// bit for each channel that sounds; a byte of wave RAM; 0 elsewhere.
    pub open spec fn spec_read(self, address: u16) -> u8 {
        if 0x10 <= address <= 0x25 {
            self.registerdata[address - 0x10]
        } else if address == 0x26 {
            ((self.registerdata[0x16] / 16) * 16 + (if self.channel1.enabled { 1int } else { 0 })
                + (if self.channel2.enabled { 2int } else { 0 }) + (if self.channel3.st.enabled {
                4int
            } else {
                0
            }) + (if self.channel4.enabled { 8int } else { 0 })) as u8
        } else if 0x30 <= address <= 0x3f {
            self.channel3.waveram[address - 0x30]
        } else {
            0
        }
    }

    /// Whether a write at `address` is taken: NR52 and the wave RAM
    /// always, the other registers only while the unit is on.
    pub open spec fn spec_writable(self, address: u16) -> bool {
        address == 0x26 || 0x30 <= address <= 0x3f || (self.enabled && 0x10 <= address <= 0x25)
    }

    /// The unit after `value` is written at `address` (an offset from
    /// `0xff00`).
    pub open spec fn spec_write(self, address: u16, value: u8) -> SoundView {
        if !self.spec_writable(address) {
            self
        } else {
            let kept = if address <= 0x26 {
                SoundView {
                    registerdata: self.registerdata.update(address - 0x10, value),
                    ..self
                }
            } else {
                self
            };
            if 0x10 <= address <= 0x14 {
                SoundView { channel1: self.channel1.spec_write(address, value), ..kept }
            } else if 0x16 <= address <= 0x19 {
                SoundView { channel2: self.channel2.spec_write(address, value), ..kept }
            } else if 0x1a <= address <= 0x1e || 0x30 <= address <= 0x3f {
                SoundView { channel3: self.channel3.spec_write(address, value), ..kept }
            } else if 0x20 <= address <= 0x23 {
                SoundView { channel4: self.channel4.spec_write(address, value), ..kept }
            } else if address == 0x24 {
                SoundView { volume_left: value % 8, volume_right: (value / 16) % 8, ..kept }
            } else if address == 0x26 {
                SoundView { enabled: value >= 0x80, ..kept }
            } else {
                kept
            }
        }
    }

    /// The unit after the frame sequencer took its next step: the length
    /// counters move on every even step (256 Hz), the sweep on steps 2 and
    /// 6 (128 Hz), the envelopes on step 7 (64 Hz).
    pub open spec fn spec_sequencer_step(self) -> SoundView {
        let step = self.sequencer_step % 8;
        let lengths = if step % 2 == 0 {
            SoundView {
                channel1: self.channel1.spec_step_length(),
                channel2: self.channel2.spec_step_length(),
                channel3: WaveChannelView {
                    st: self.channel3.st.spec_step_length(),
                    ..self.channel3
                },
                channel4: self.channel4.spec_step_length(),
                ..self
            }
        } else {
            self
        };
        let swept = if step == 2 || step == 6 {
            SoundView { channel1: lengths.channel1.spec_step_sweep(), ..lengths }
        } else {
            lengths
        };
        let shaped = if step == 7 {
            SoundView {
                channel1: SquareChannel {
                    volume_envelope: swept.channel1.volume_envelope.spec_step(),
                    ..swept.channel1
                },
                channel2: SquareChannel {
                    volume_envelope: swept.channel2.volume_envelope.spec_step(),
                    ..swept.channel2
                },
                channel4: NoiseChannel {
                    volume_envelope: swept.channel4.volume_envelope.spec_step(),
                    ..swept.channel4
                },
                ..swept
            }
        } else {
            swept
        };
        SoundView { sequencer_step: ((step + 1) % 8) as u8, ..shaped }
    }

    /// The unit after its channels moved by one clock tick.
    pub open spec fn spec_channels_tick(self) -> SoundView {
        SoundView {
            channel1: self.channel1.spec_tick(),
            channel2: self.channel2.spec_tick(),
            channel3: WaveChannelView { st: self.channel3.st.spec_tick(), ..self.channel3 },
            channel4: self.channel4.spec_tick(),
            ..self
        }
    }

    /// The sample of the left output now: the channels that NR51 routes
    /// to it (bits 0 to 3), added up and scaled by the master volume plus
    /// one; silence while the unit is off.
    pub open spec fn spec_mix_left(self) -> int {
        let routes = self.registerdata[0x15];
        if !self.enabled {
            0
        } else {
            (spec_gate(spec_routed(routes, 0), self.channel1.spec_amplitude()) + spec_gate(
                spec_routed(routes, 1),
                self.channel2.spec_amplitude(),
            ) + spec_gate(spec_routed(routes, 2), self.channel3.spec_amplitude()) + spec_gate(
                spec_routed(routes, 3),
                self.channel4.spec_amplitude(),
            )) * (self.volume_left + 1)
        }
    }

    /// The sample of the right output now: as the left, with bits 4 to 7
    /// of NR51 and the other master volume.
    pub open spec fn spec_mix_right(self) -> int {
        let routes = self.registerdata[0x15];
        if !self.enabled {
            0
        } else {
            (spec_gate(spec_routed(routes, 4), self.channel1.spec_amplitude()) + spec_gate(
                spec_routed(routes, 5),
                self.channel2.spec_amplitude(),
            ) + spec_gate(spec_routed(routes, 6), self.channel3.spec_amplitude()) + spec_gate(
                spec_routed(routes, 7),
                self.channel4.spec_amplitude(),
            )) * (self.volume_right + 1)
        }
    }

    /// The unit after the sample clock moved by one machine cycle: when a
    /// sample period has passed, one sample of each output is added.
    pub open spec fn spec_sample_tick(self) -> SoundView {
        let clock = self.sample_clock + 4 * self.sample_rate;
        if clock >= CLOCKS_PER_SECOND {
            SoundView {
                sample_clock: (clock - CLOCKS_PER_SECOND) as u32,
                left: self.left.push(self.spec_mix_left() as i32),
                right: self.right.push(self.spec_mix_right() as i32),
                ..self
            }
        } else {
            SoundView { sample_clock: clock as u32, ..self }
        }
    }

    /// The unit one machine cycle later. While it is on, the frame
    /// sequencer and the channels move by four clock ticks; on or off, the
    /// sample clock moves.
    pub open spec fn spec_tick(self) -> SoundView {
        if self.enabled {
            let clock = self.sequencer_clock + 4;
            let paced = if clock >= SEQUENCER_PERIOD {
                (SoundView {
                    sequencer_clock: (clock - SEQUENCER_PERIOD) as u16,
                    ..self
                }).spec_sequencer_step()
            } else {
                SoundView { sequencer_clock: clock as u16, ..self }
            };
            let moved =
                paced.spec_channels_tick().spec_channels_tick().spec_channels_tick().spec_channels_tick();
            moved.spec_sample_tick()
        } else {
            self.spec_sample_tick()
        }
    }

    /// The unit `n` machine cycles later.
    pub open spec fn spec_run(self, n: nat) -> SoundView
        decreases n,
    {
        if n == 0 {
            self
        } else {
            self.spec_tick().spec_run((n - 1) as nat)
        }
    }
}

/// The sound unit.
pub struct Sound {
    enabled: bool,
    registerdata: Vec<u8>,
    channel1: SquareChannel,
    channel2: SquareChannel,
    channel3: WaveChannel,
    channel4: NoiseChannel,
    volume_left: u8,
    volume_right: u8,
    sample_rate: u32,
    sample_clock: u32,
    sequencer_clock: u16,
    sequencer_step: u8,
    left: Vec<i32>,
    right: Vec<i32>,
}

impl View for Sound {
    type V = SoundView;

    closed spec fn view(&self) -> SoundView {
        SoundView {
            enabled: self.enabled,
            registerdata: self.registerdata@,
            channel1: self.channel1,
            channel2: self.channel2,
            channel3: self.channel3@,
            channel4: self.channel4,
            volume_left: self.volume_left,
            volume_right: self.volume_right,
            sample_rate: self.sample_rate,
            sample_clock: self.sample_clock,
            sequencer_clock: self.sequencer_clock,
            sequencer_step: self.sequencer_step,
            left: self.left@,
            right: self.right@,
        }
    }
}

/// `amplitude` if `routed`, else nothing.
fn gate(routed: bool, amplitude: i32) -> (a: i32)
    ensures
        a == spec_gate(routed, amplitude as int),
{
    if routed {
        amplitude
    } else {
        0
    }
}

/// `sum` scaled by a master volume plus one.
fn scale(sum: i32, volume: u8) -> (s: i32)
    requires
        -60 <= sum <= 60,
        volume <= 7,
    ensures
        s == sum * (volume + 1),
        -SAMPLE_PEAK <= s <= SAMPLE_PEAK,
{
    let factor: i32 = volume as i32 + 1;
    assert(-60 * 8 <= sum * factor <= 60 * 8) by (nonlinear_arith)
        requires
            -60 <= sum <= 60,
            1 <= factor <= 8,
    ;
    sum * factor
}

impl Sound {
    /// The invariant of the sound unit; `new` establishes it and every
    /// method keeps it.
    pub open spec fn wf(&self) -> bool {
        self@.wf()
    }

    /// A sound unit that is off, for a host that plays `samples_rate`
    /// samples per second. No more than one sample per machine cycle is
    /// made: a higher rate is taken as `MAX_SAMPLE_RATE`.
    pub fn new(samples_rate: u32) -> (s: Sound)
        ensures
            s.wf(),
            s@ == SoundView::spec_new(samples_rate),
    {
        let mut registerdata: Vec<u8> = Vec::new();
        let mut i: usize = 0;
        while i < REGISTER_COUNT
            invariant
                i <= REGISTER_COUNT,
                registerdata@.len() == i,
                forall|k: int| 0 <= k < i ==> registerdata@[k] == 0u8,
            decreases REGISTER_COUNT - i,
        {
            registerdata.push(0);
            i += 1;
        }
        assert(registerdata@ =~= Seq::new(REGISTER_COUNT as nat, |i: int| 0u8));
        Sound {
            enabled: false,
            registerdata,
            channel1: SquareChannel::new(true),
            channel2: SquareChannel::new(false),
            channel3: WaveChannel::new(),
            channel4: NoiseChannel::new(),
            volume_left: 7,
            volume_right: 7,
            sample_rate: if samples_rate > MAX_SAMPLE_RATE {
                MAX_SAMPLE_RATE
            } else {
                samples_rate
            },
            sample_clock: 0,
            sequencer_clock: 0,
            sequencer_step: 0,
            left: Vec::new(),
            right: Vec::new(),
        }
    }

    /// Reads at `address`, an offset from `0xff00`.
    pub fn read_byte(&self, address: u16) -> (v: u8)
        requires
            self.wf(),
        ensures
            v == self@.spec_read(address),
    {
        if 0x10 <= address && address <= 0x25 {
            self.registerdata[(address - 0x10) as usize]
        } else if address == 0x26 {
            let mut v: u8 = (self.registerdata[0x16] / 16) * 16;
            if self.channel1.on() {
                v += 1;
            }
            if self.channel2.on() {
                v += 2;
            }
            if self.channel3.on() {
                v += 4;
            }
            if self.channel4.on() {
                v += 8;
            }
            v
        } else if 0x30 <= address && address <= 0x3f {
            self.channel3.ram_byte((address - 0x30) as usize)
        } else {
            0
        }
    }

    /// Writes at `address`, an offset from `0xff00`. While the unit is
    /// off only NR52 (`0x26`) and the wave RAM (`0x30..=0x3f`) take
    /// writes.
    pub fn write_byte(&mut self, address: u16, value: u8)
        requires
            old(self).wf(),
        ensures
            final(self).wf(),
            final(self)@ == old(self)@.spec_write(address, value),
    {
        let writable = address == 0x26 || (0x30 <= address && address <= 0x3f) || (self.enabled
            && 0x10 <= address && address <= 0x25);
        if !writable {
            return ;
        }
        if address <= 0x26 {
            self.registerdata.set((address - 0x10) as usize, value);
        }
        if 0x10 <= address && address <= 0x14 {
            self.channel1.write_byte(address, value);
        } else if 0x16 <= address && address <= 0x19 {
            self.channel2.write_byte(address, value);
        } else if (0x1a <= address && address <= 0x1e) || (0x30 <= address && address <= 0x3f) {
            self.channel3.write_byte(address, value);
        } else if 0x20 <= address && address <= 0x23 {
            self.channel4.write_byte(address, value);
        } else if address == 0x24 {
            self.volume_left = value % 8;
            self.volume_right = (value / 16) % 8;
        } else if address == 0x26 {
            self.enabled = value >= 0x80;
        }
    }

    /// Takes the next step of the frame sequencer.
    fn sequencer_step(&mut self)
        requires
            old(self).wf(),
        ensures
            final(self).wf(),
            final(self)@ == old(self)@.spec_sequencer_step(),
    {
        let step = self.sequencer_step % 8;
        if step % 2 == 0 {
            self.channel1.step_length();
            self.channel2.step_length();
            self.channel3.step_length();
            self.channel4.step_length();
        }
        if step == 2 || step == 6 {
            self.channel1.step_sweep();
        }
        if step == 7 {
            self.channel1.volume_envelope.step();
            self.channel2.volume_envelope.step();
            self.channel4.volume_envelope.step();
        }
        self.sequencer_step = (step + 1) % 8;
    }

    /// Moves the channels by one clock tick.
    fn channels_tick(&mut self)
        requires
            old(self).wf(),
        ensures
            final(self).wf(),
            final(self)@ == old(self)@.spec_channels_tick(),
    {
        self.channel1.tick();
        self.channel2.tick();
        self.channel3.tick();
        self.channel4.tick();
    }

    /// The sample of the left output now.
    fn mix_left(&self) -> (s: i32)
        requires
            self.wf(),
        ensures
            s == self@.spec_mix_left(),
            -SAMPLE_PEAK <= s <= SAMPLE_PEAK,
    {
        if !self.enabled {
            return 0;
        }
        let routes = self.registerdata[0x15];
        let sum = gate(routes % 2 == 1, self.channel1.amplitude()) + gate(
            (routes / 2) % 2 == 1,
            self.channel2.amplitude(),
        ) + gate((routes / 4) % 2 == 1, self.channel3.amplitude()) + gate(
            (routes / 8) % 2 == 1,
            self.channel4.amplitude(),
        );
        scale(sum, self.volume_left)
    }

    /// The sample of the right output now.
    fn mix_right(&self) -> (s: i32)
        requires
            self.wf(),
        ensures
            s == self@.spec_mix_right(),
            -SAMPLE_PEAK <= s <= SAMPLE_PEAK,
    {
        if !self.enabled {
            return 0;
        }
        let routes = self.registerdata[0x15];
        let sum = gate((routes / 16) % 2 == 1, self.channel1.amplitude()) + gate(
            (routes / 32) % 2 == 1,
            self.channel2.amplitude(),
        ) + gate((routes / 64) % 2 == 1, self.channel3.amplitude()) + gate(
            routes / 128 == 1,
            self.channel4.amplitude(),
        );
        scale(sum, self.volume_right)
    }

    /// Moves the sample clock by one machine cycle.
    fn sample_tick(&mut self)
        requires
            old(self).wf(),
        ensures
            final(self).wf(),
            final(self)@ == old(self)@.spec_sample_tick(),
    {
        let clock: u32 = self.sample_clock + 4 * self.sample_rate;
        if clock >= CLOCKS_PER_SECOND {
            let l = self.mix_left();
            let r = self.mix_right();
            self.sample_clock = clock - CLOCKS_PER_SECOND;
            self.left.push(l);
            self.right.push(r);
        } else {
            self.sample_clock = clock;
        }
    }

    /// Advances the unit by one machine cycle.
    pub fn tick(&mut self)
        requires
            old(self).wf(),
        ensures
            final(self).wf(),
            final(self)@ == old(self)@.spec_tick(),
    {
        if self.enabled {
            let clock: u16 = self.sequencer_clock + 4;
            if clock >= SEQUENCER_PERIOD {
                self.sequencer_clock = clock - SEQUENCER_PERIOD;
                self.sequencer_step();
            } else {
                self.sequencer_clock = clock;
            }
            self.channels_tick();
            self.channels_tick();
            self.channels_tick();
            self.channels_tick();
        }
        self.sample_tick();
    }

    /// Advances the unit by `ticks` machine cycles. Samples are made at
    /// the rate of the host: the sample clock gains four times the rate in
    /// each machine cycle, and every `CLOCKS_PER_SECOND` of it is one more
    /// sample of each output.
    pub fn do_cycle(&mut self, ticks: u32)
        requires
            old(self).wf(),
        ensures
            final(self).wf(),
            final(self)@ == old(self)@.spec_run(ticks as nat),
            final(self)@.left.len() == old(self)@.left.len() + (old(self)@.sample_clock + 4
                * old(self)@.sample_rate * ticks) / (CLOCKS_PER_SECOND as int),
    {
        proof {
            lemma_sample_count(old(self)@, ticks as nat);
        }
        let mut done: u32 = 0;
        while done < ticks
            invariant
                done <= ticks,
                self.wf(),
                self@.spec_run((ticks - done) as nat) == old(self)@.spec_run(ticks as nat),
            decreases ticks - done,
        {
            self.tick();
            done += 1;
        }
    }

    /// The number of samples of each output that wait for the host.
    pub fn samples_available(&self) -> (n: usize)
        requires
            self.wf(),
        ensures
            n == self@.left.len(),
            n == self@.right.len(),
    {
        self.left.len()
    }

    /// Hands the waiting samples of both outputs to the host, left first,
    /// and keeps none. Every sample lies between `-SAMPLE_PEAK` and
    /// `SAMPLE_PEAK`.
    pub fn take_samples(&mut self) -> (out: (Vec<i32>, Vec<i32>))
        requires
            old(self).wf(),
        ensures
            final(self).wf(),
            out.0@ == old(self)@.left,
            out.1@ == old(self)@.right,
            out.0@.len() == out.1@.len(),
            spec_all_in_range(out.0@),
            spec_all_in_range(out.1@),
            final(self)@ == (SoundView {
                left: Seq::<i32>::empty(),
                right: Seq::<i32>::empty(),
                ..old(self)@
            }),
    {
        let mut left: Vec<i32> = Vec::new();
        let mut right: Vec<i32> = Vec::new();
        std::mem::swap(&mut left, &mut self.left);
        std::mem::swap(&mut right, &mut self.right);
        (left, right)
    }
}

/// The sound unit makes samples at the rate that the host asked for: over
/// `n` machine cycles the sample clock gains four times the rate for each,
/// and every `CLOCKS_PER_SECOND` of it is one more sample of each output.
pub proof fn lemma_sample_count(s: SoundView, n: nat)
    requires
        s.sample_rate <= MAX_SAMPLE_RATE,
        s.sample_clock < CLOCKS_PER_SECOND,
        s.left.len() == s.right.len(),
    ensures
        s.spec_run(n).sample_rate == s.sample_rate,
        s.spec_run(n).left.len() == s.left.len() + (s.sample_clock + 4 * s.sample_rate * n)
            / (CLOCKS_PER_SECOND as int),
        s.spec_run(n).right.len() == s.spec_run(n).left.len(),
        s.spec_run(n).sample_clock == (s.sample_clock + 4 * s.sample_rate * n) % (
        CLOCKS_PER_SECOND as int),
    decreases n,
{
    if n > 0 {
        let next = s.spec_tick();
        let gained = s.sample_clock + 4 * s.sample_rate;
        lemma_sample_count(next, (n - 1) as nat);
        let rest = 4 * s.sample_rate * (n - 1);
        assert(4 * s.sample_rate * n == 4 * s.sample_rate + rest) by (nonlinear_arith)
            requires
                rest == 4 * s.sample_rate * (n - 1),
        ;
        assert(rest >= 0) by (nonlinear_arith)
            requires
                rest == 4 * s.sample_rate * (n - 1),
                n >= 1,
                s.sample_rate >= 0,
        ;
        lemma_carry_over(gained as int, rest as int);
    }
}

/// Counting the whole units of `a`, carrying its remainder over and
/// counting the whole units of remainder and `b` is counting the whole
/// units of `a + b`.
proof fn lemma_carry_over(a: int, b: int)
    requires
        0 <= a,
        0 <= b,
    ensures
        a / 4194304 + (a % 4194304 + b) / 4194304 == (a + b) / 4194304,
        (a % 4194304 + b) % 4194304 == (a + b) % 4194304,
{
}

} // verus!
