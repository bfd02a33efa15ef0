//! The interrupt controller: the request latch `IF` and the mask `IE`.

use vstd::prelude::*;

verus! {

/// The five interrupt sources, in priority order.
#[derive(Debug, Copy, Clone, PartialEq, Eq, Structural)]
pub enum Interrupt {
    /// The picture unit entered the vertical blank.
    VBank,
    /// A condition selected in the LCD status register was met.
    LCDState,
    /// The timer counter overflowed.
    TimerOverflow,
    /// A serial transfer completed.
    SerialIOComplete,
    /// A selected key went down.
    JoyPad,
}

/// The bits of `IF` and `IE` that exist.
pub const IRQ_MASK: u8 = 0x1f;

/// The bits of `IF` that do not exist; they read as ones.
pub const IF_UNUSED_MASK: u8 = 0xe0;

impl Interrupt {
    /// The position of the source in `IF` and `IE`; the lower, the more
    /// urgent.
    pub open spec fn spec_index(self) -> u8 {
        match self {
            Interrupt::VBank => 0,
            Interrupt::LCDState => 1,
            Interrupt::TimerOverflow => 2,
            Interrupt::SerialIOComplete => 3,
            Interrupt::JoyPad => 4,
        }
    }

    /// The bit of the source in `IF` and `IE`.
    pub open spec fn spec_mask(self) -> u8 {
        match self {
            Interrupt::VBank => 0x01,
            Interrupt::LCDState => 0x02,
            Interrupt::TimerOverflow => 0x04,
            Interrupt::SerialIOComplete => 0x08,
            Interrupt::JoyPad => 0x10,
        }
    }

    /// The address of the handler of the source: `0x40 + 8 * index`.
    pub open spec fn spec_address(self) -> u16 {
        (0x40 + 8 * self.spec_index()) as u16
    }

    /// The source whose bit is `value`, if `value` is a single bit of the
    /// five.
    pub open spec fn spec_from_u8(value: u8) -> Option<Interrupt> {
        if value == 1 {
            Some(Interrupt::VBank)
        } else if value == 2 {
            Some(Interrupt::LCDState)
        } else if value == 4 {
            Some(Interrupt::TimerOverflow)
        } else if value == 8 {
            Some(Interrupt::SerialIOComplete)
        } else if value == 16 {
            Some(Interrupt::JoyPad)
        } else {
            None
        }
    }

    /// The source whose bit is `value`; `None` unless `value` is one of 1,
    /// 2, 4, 8 and 16.
    pub fn from_u8(value: u8) -> (r: Option<Interrupt>)
        ensures
            r == Interrupt::spec_from_u8(value),
            r is Some ==> r->0.spec_mask() == value,
            r is None <==> !(value == 1 || value == 2 || value == 4 || value == 8 || value == 16),
    {
        match value {
            1 => Some(Interrupt::VBank),
            2 => Some(Interrupt::LCDState),
            4 => Some(Interrupt::TimerOverflow),
            8 => Some(Interrupt::SerialIOComplete),
            16 => Some(Interrupt::JoyPad),
            _ => None,
        }
    }

    /// The position of the source in `IF` and `IE`.
    pub fn index(&self) -> (n: u8)
        ensures
            n == self.spec_index(),
            n < 5,
    {
        match *self {
            Interrupt::VBank => 0,
            Interrupt::LCDState => 1,
            Interrupt::TimerOverflow => 2,
            Interrupt::SerialIOComplete => 3,
            Interrupt::JoyPad => 4,
        }
    }

    /// The bit of the source in `IF` and `IE`.
    pub fn mask(&self) -> (m: u8)
        ensures
            m == self.spec_mask(),
    {
        match *self {
            Interrupt::VBank => 0x01,
            Interrupt::LCDState => 0x02,
            Interrupt::TimerOverflow => 0x04,
            Interrupt::SerialIOComplete => 0x08,
            Interrupt::JoyPad => 0x10,
        }
    }

    /// The address of the handler of the source.
    pub fn get_address(&self) -> (a: u16)
        ensures
            a == self.spec_address(),
            a == 0x40 + 8 * self.spec_index(),
    {
        match *self {
            Interrupt::VBank => 0x40,
            Interrupt::LCDState => 0x48,
            Interrupt::TimerOverflow => 0x50,
            Interrupt::SerialIOComplete => 0x58,
            Interrupt::JoyPad => 0x60,
        }
    }
}

/// The most urgent source among the bits of `pending`: the lowest set bit
/// of the low five.
pub open spec fn spec_first_pending(pending: u8) -> Option<Interrupt> {
    if pending & 0x01 != 0 {
        Some(Interrupt::VBank)
    } else if pending & 0x02 != 0 {
        Some(Interrupt::LCDState)
    } else if pending & 0x04 != 0 {
        Some(Interrupt::TimerOverflow)
    } else if pending & 0x08 != 0 {
        Some(Interrupt::SerialIOComplete)
    } else if pending & 0x10 != 0 {
        Some(Interrupt::JoyPad)
    } else {
        None
    }
}

/// The interrupt controller.
#[derive(Debug, Copy, Clone, PartialEq, Eq, Structural)]
pub struct Irq {
    /// `IE`, as written.
    pub enabled: u8,
    /// `IF`: the requests not yet served. Only the low five bits are ever
    /// set.
    pub flag: u8,
}

impl Irq {
    /// Nothing enabled, nothing requested.
    pub fn new() -> (irq: Irq)
        ensures
            irq == (Irq { enabled: 0, flag: 0 }),
    {
        Irq { enabled: 0x00, flag: 0x00 }
    }

    /// The requests that are enabled: `IE & IF`, low five bits.
    pub open spec fn spec_pending(self) -> u8 {
        self.enabled & self.flag & IRQ_MASK
    }

    /// The controller after `mask` is or-ed into the requests.
    pub open spec fn spec_request_mask(self, mask: u8) -> Irq {
        Irq { flag: (self.flag | mask) & IRQ_MASK, ..self }
    }

    /// The controller after the request of `kind` is withdrawn.
    pub open spec fn spec_acknowledge(self, kind: Interrupt) -> Irq {
        Irq { flag: self.flag & !kind.spec_mask(), ..self }
    }

    /// Reads `IF`: the requests, with ones in the three bits that do not
    /// exist.
    pub fn get_interrupt_flag(&self) -> (v: u8)
        ensures
            v == self.flag | IF_UNUSED_MASK,
    {
        self.flag | IF_UNUSED_MASK
    }

    /// Writes `IF`: the low five bits of `value` replace the requests.
    pub fn set_interrupt_flag(&mut self, value: u8)
        ensures
            *final(self) == (Irq { flag: value & IRQ_MASK, ..*old(self) }),
    {
        self.flag = value & IRQ_MASK;
    }

    /// Reads `IE`.
    pub fn get_interrupt_enabled(&self) -> (v: u8)
        ensures
            v == self.enabled,
    {
        self.enabled
    }

    /// Writes `IE`.
    pub fn set_interrupt_enabled(&mut self, value: u8)
        ensures
            *final(self) == (Irq { enabled: value, ..*old(self) }),
    {
        self.enabled = value;
    }

    /// Latches a request of `kind`.
    pub fn request(&mut self, kind: Interrupt)
        ensures
            *final(self) == old(self).spec_request_mask(kind.spec_mask()),
    {
        let m = kind.mask();
        self.flag = (self.flag | m) & IRQ_MASK;
    }

    /// Latches every request whose bit is set in `mask`.
    pub fn request_mask(&mut self, mask: u8)
        ensures
            *final(self) == old(self).spec_request_mask(mask),
    {
        self.flag = (self.flag | mask) & IRQ_MASK;
    }

    /// The requests that are enabled.
    pub fn pending(&self) -> (p: u8)
        ensures
            p == self.spec_pending(),
    {
        self.enabled & self.flag & IRQ_MASK
    }

    /// The most urgent enabled request, if there is one.
    pub fn first_pending(&self) -> (r: Option<Interrupt>)
        ensures
            r == spec_first_pending(self.spec_pending()),
    {
        let p = self.pending();
        if p & 0x01 != 0 {
            Some(Interrupt::VBank)
        } else if p & 0x02 != 0 {
            Some(Interrupt::LCDState)
        } else if p & 0x04 != 0 {
            Some(Interrupt::TimerOverflow)
        } else if p & 0x08 != 0 {
            Some(Interrupt::SerialIOComplete)
        } else if p & 0x10 != 0 {
            Some(Interrupt::JoyPad)
        } else {
            None
        }
    }

    /// Withdraws the request of `kind`; the others stay.
    pub fn acknowledge(&mut self, kind: Interrupt)
        ensures
            *final(self) == old(self).spec_acknowledge(kind),
    {
        let m = kind.mask();
        self.flag = self.flag & !m;
    }
}

} // verus!
