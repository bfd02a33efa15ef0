//! The timer: a free-running 16-bit counter whose high byte is `DIV`, and
//! the counter `TIMA` that a selectable bit of it clocks.

use vstd::prelude::*;

verus! {

/// The bit of `IF` that the timer requests.
pub const TIMER_INTERRUPT: u8 = 0x04;

/// The timer registers.
#[derive(Debug, Copy, Clone, PartialEq, Eq, Structural)]
pub struct Timer {
    /// The free-running counter, one step per clock tick. `DIV` is its high
    /// byte.
    pub internal: u16,
    /// `TIMA`, the timer counter.
    pub counter: u8,
    /// `TMA`, loaded into `TIMA` when it overflows.
    pub modulo: u8,
    /// `TAC`: bit 2 enables `TIMA`, bits 1 and 0 select its rate.
    pub control: u8,
    /// The interrupt requests raised since they were last collected.
    pub interrupt: u8,
}

/// The weight of the bit of the free-running counter that clocks `TIMA`:
/// bit 9, 3, 5 or 7 for the rates 0 to 3.
pub open spec fn spec_tap_weight(control: u8) -> u16 {
    let rate = control % 4;
    if rate == 0 {
        512
    } else if rate == 1 {
        8
    } else if rate == 2 {
        32
    } else {
        128
    }
}

/// Whether `TAC` enables `TIMA`.
pub open spec fn spec_clock_enabled(control: u8) -> bool {
    (control / 4) % 2 == 1
}

/// The signal whose fall clocks `TIMA`: the selected bit of the counter,
/// and-ed with the enable bit.
pub open spec fn spec_tap_signal(internal: u16, control: u8) -> bool {
    spec_clock_enabled(control) && (internal / spec_tap_weight(control)) % 2 == 1
}

/// `TIMA` after one increment: on overflow it reloads from `TMA` and a
/// timer interrupt is requested.
pub open spec fn spec_increment(t: Timer) -> Timer {
    if t.counter == 0xff {
        Timer { counter: t.modulo, interrupt: t.interrupt | TIMER_INTERRUPT, ..t }
    } else {
        Timer { counter: (t.counter + 1) as u8, ..t }
    }
}

/// The timer after its free-running counter stepped, wrapping at 2^16.
pub open spec fn spec_stepped(t: Timer) -> Timer {
    Timer { internal: if t.internal == 0xffff { 0 } else { (t.internal + 1) as u16 }, ..t }
}

/// The timer one clock tick later: the free-running counter steps, and
/// `TIMA` increments if the tap signal fell.
pub open spec fn spec_tick(t: Timer) -> Timer {
    let stepped = spec_stepped(t);
    if spec_tap_signal(t.internal, t.control) && !spec_tap_signal(stepped.internal, t.control) {
        spec_increment(stepped)
    } else {
        stepped
    }
}

/// The timer `n` clock ticks later.
pub open spec fn spec_run(t: Timer, n: nat) -> Timer
    decreases n,
{
    if n == 0 {
        t
    } else {
        spec_run(spec_tick(t), (n - 1) as nat)
    }
}

impl Timer {
    /// All registers zero.
    pub fn new() -> (t: Timer)
        ensures
            t == (Timer { internal: 0, counter: 0, modulo: 0, control: 0, interrupt: 0 }),
    {
        Timer { internal: 0, counter: 0, modulo: 0, control: 0, interrupt: 0 }
    }

    /// What a read of `address` yields.
    pub open spec fn spec_read(self, address: u16) -> u8 {
        if address == 0xff04 {
            (self.internal / 256) as u8
        } else if address == 0xff05 {
            self.counter
        } else if address == 0xff06 {
            self.modulo
        } else {
            self.control
        }
    }

    /// The timer after `value` is written to `address`. Whatever is written
    /// to `DIV`, the whole free-running counter becomes zero.
    pub open spec fn spec_write(self, address: u16, value: u8) -> Timer {
        if address == 0xff04 {
            Timer { internal: 0, ..self }
        } else if address == 0xff05 {
            Timer { counter: value, ..self }
        } else if address == 0xff06 {
            Timer { modulo: value, ..self }
        } else {
            Timer { control: value, ..self }
        }
    }

    /// Reads one of `DIV` (`0xff04`), `TIMA`, `TMA` and `TAC` (`0xff07`).
    pub fn read_byte(&self, address: u16) -> (v: u8)
        requires
            0xff04 <= address <= 0xff07,
        ensures
            v == self.spec_read(address),
    {
        match address {
            0xff04 => (self.internal / 256) as u8,
            0xff05 => self.counter,
            0xff06 => self.modulo,
            _ => self.control,
        }
    }

    /// Writes one of `DIV` (`0xff04`), `TIMA`, `TMA` and `TAC` (`0xff07`).
    pub fn write_byte(&mut self, address: u16, value: u8)
        requires
            0xff04 <= address <= 0xff07,
        ensures
            *final(self) == old(self).spec_write(address, value),
            address == 0xff04 ==> final(self).spec_read(0xff04) == 0,
    {
        match address {
            0xff04 => {
                self.internal = 0;
            },
            0xff05 => {
                self.counter = value;
            },
            0xff06 => {
                self.modulo = value;
            },
            _ => {
                self.control = value;
            },
        }
    }

    /// The rate of `TIMA` that `TAC` selects, in Hz.
    pub fn get_clock(&self) -> (hz: u32)
        ensures
            self.control % 4 == 0 ==> hz == 4096,
            self.control % 4 == 1 ==> hz == 262144,
            self.control % 4 == 2 ==> hz == 65536,
            self.control % 4 == 3 ==> hz == 16384,
    {
        match self.control % 4 {
            0 => 4096,
            1 => 262144,
            2 => 65536,
            _ => 16384,
        }
    }

    /// Whether `TAC` enables `TIMA`.
    pub fn is_clock_enable(&self) -> (on: bool)
        ensures
            on == spec_clock_enabled(self.control),
    {
        (self.control / 4) % 2 == 1
    }

    /// The weight of the counter bit that clocks `TIMA`.
    fn tap_weight(&self) -> (w: u16)
        ensures
            w == spec_tap_weight(self.control),
    {
        match self.control % 4 {
            0 => 512,
            1 => 8,
            2 => 32,
            _ => 128,
        }
    }

    /// Advances the timer by one clock tick.
    pub fn tick(&mut self)
        ensures
            *final(self) == spec_tick(*old(self)),
    {
        let w = self.tap_weight();
        let on = self.is_clock_enable();
        let before = on && (self.internal / w) % 2 == 1;
        self.internal = self.internal.wrapping_add(1);
        let after = on && (self.internal / w) % 2 == 1;
        if before && !after {
            if self.counter == 0xff {
                self.counter = self.modulo;
                self.interrupt = self.interrupt | TIMER_INTERRUPT;
            } else {
                self.counter = self.counter + 1;
            }
        }
    }

    /// Advances the timer by `ticks` machine cycles, four clock ticks each.
    /// The free-running counter counts every tick, modulo 2^16.
    pub fn do_cycle(&mut self, ticks: u32)
        ensures
            *final(self) == spec_run(*old(self), 4 * ticks as nat),
            final(self).internal == (old(self).internal + 4 * ticks) % 65536,
            final(self).control == old(self).control,
            final(self).modulo == old(self).modulo,
    {
        proof {
            lemma_internal_counts(*old(self), 4 * ticks as nat);
        }
        let total: u64 = 4 * (ticks as u64);
        let mut done: u64 = 0;
        while done < total
            invariant
                done <= total,
                total == 4 * ticks as nat,
                spec_run(*self, (total - done) as nat) == spec_run(*old(self), total as nat),
            decreases total - done,
        {
            self.tick();
            done += 1;
        }
    }

    /// Hands over the interrupt requests raised since the last call.
    pub fn take_interrupt(&mut self) -> (mask: u8)
        ensures
            mask == old(self).interrupt,
            *final(self) == (Timer { interrupt: 0, ..*old(self) }),
    {
        let mask = self.interrupt;
        self.interrupt = 0;
        mask
    }
}

/// `TIMA` is clocked exactly when the timer is enabled and the
/// free-running counter reaches a multiple of twice the weight of the
/// tap bit: every 1024, 16, 64 or 256 clock ticks, which at 4194304 ticks
/// a second is 4096, 262144, 65536 or 16384 times a second.
pub proof fn lemma_tima_period(t: Timer)
    ensures
        spec_tick(t) == (if spec_clock_enabled(t.control) && (t.internal + 1) % (2
            * spec_tap_weight(t.control)) == 0 {
            spec_increment(spec_stepped(t))
        } else {
            spec_stepped(t)
        }),
        2 * spec_tap_weight(t.control) == 1024 || 2 * spec_tap_weight(t.control) == 16 || 2
            * spec_tap_weight(t.control) == 64 || 2 * spec_tap_weight(t.control) == 256,
{
    let x = t.internal as int;
    let w = spec_tap_weight(t.control) as int;
    let next = spec_stepped(t).internal as int;
    if w == 512 {
        assert(((x / 512) % 2 == 1 && (next / 512) % 2 != 1) <==> (x + 1) % 1024 == 0);
    } else if w == 8 {
        assert(((x / 8) % 2 == 1 && (next / 8) % 2 != 1) <==> (x + 1) % 16 == 0);
    } else if w == 32 {
        assert(((x / 32) % 2 == 1 && (next / 32) % 2 != 1) <==> (x + 1) % 64 == 0);
    } else {
        assert(((x / 128) % 2 == 1 && (next / 128) % 2 != 1) <==> (x + 1) % 256 == 0);
    }
}

/// `DIV` counts up once every 256 clock ticks: after a write to `DIV`,
/// `n` ticks later it reads `(n / 256) % 256`.
pub proof fn lemma_div_after_reset(t: Timer, n: nat)
    requires
        t.internal == 0,
    ensures
        spec_run(t, n).internal == n % 65536,
        spec_run(t, n).spec_read(0xff04) == (n / 256) % 256,
{
    lemma_internal_counts(t, n);
}

/// The free-running counter counts the ticks modulo 2^16, whatever else
/// the timer does.
pub proof fn lemma_internal_counts(t: Timer, n: nat)
    ensures
        spec_run(t, n).internal == (t.internal + n) % 65536,
        spec_run(t, n).control == t.control,
        spec_run(t, n).modulo == t.modulo,
    decreases n,
{
    if n > 0 {
        lemma_internal_counts(spec_tick(t), (n - 1) as nat);
    }
}

} // verus!
