//! The register file of the processor.

use vstd::prelude::*;
use crate::bits::lemma_high_nibble;
use crate::bits::lemma_word_bytes;

verus! {

/// The four condition flags.
#[derive(Debug, Copy, Clone, PartialEq, Eq, Structural)]
pub struct Flags {
    /// Carry: the last operation carried out of, or borrowed into, bit 7.
    pub c: bool,
    /// Half carry: the last operation carried out of, or borrowed into, bit 3.
    pub h: bool,
    /// Subtract: the last operation was a subtraction.
    pub n: bool,
    /// Zero: the last operation gave zero.
    pub z: bool,
}

/// Eight 8-bit registers, readable in pairs as 16-bit words, the stack
/// pointer and the program counter. The flag register `F` is kept as four
/// booleans, so its low nibble cannot hold anything.
#[derive(Debug, Copy, Clone, PartialEq, Eq, Structural)]
pub struct Registers {
    /// The accumulator.
    pub a: u8,
    /// The high byte of BC.
    pub b: u8,
    /// The low byte of BC.
    pub c: u8,
    /// The high byte of DE.
    pub d: u8,
    /// The low byte of DE.
    pub e: u8,
    /// The high byte of HL.
    pub h: u8,
    /// The low byte of HL.
    pub l: u8,
    /// The stack pointer.
    pub sp: u16,
    /// The program counter.
    pub pc: u16,
    /// The flags: what `F` holds.
    pub flags: Flags,
}

/// The word whose high byte is `hi` and whose low byte is `lo`.
pub open spec fn word_of(hi: u8, lo: u8) -> u16 {
    (hi as int * 256 + lo as int) as u16
}

/// The high byte of a word.
pub open spec fn high_byte(w: u16) -> u8 {
    (w / 256) as u8
}

/// The low byte of a word.
pub open spec fn low_byte(w: u16) -> u8 {
    (w % 256) as u8
}

/// The flags that a byte written to `F` selects: bits 7 to 4 are Z, N, H, C.
pub open spec fn flags_of(value: u8) -> Flags {
    Flags {
        z: value & 0x80 != 0,
        n: value & 0x40 != 0,
        h: value & 0x20 != 0,
        c: value & 0x10 != 0,
    }
}

/// The byte that `F` reads as.
pub open spec fn flags_byte(flags: Flags) -> u8 {
    ((if flags.z { 0x80int } else { 0 }) + (if flags.n { 0x40int } else { 0 })
        + (if flags.h { 0x20int } else { 0 }) + (if flags.c { 0x10int } else { 0 })) as u8
}

/// Joins two bytes into a word.
pub fn make_word(hi: u8, lo: u8) -> (w: u16)
    ensures
        w == word_of(hi, lo),
        high_byte(w) == hi,
        low_byte(w) == lo,
{
    (hi as u16) * 256 + (lo as u16)
}

/// The high byte of a word.
pub fn hi_byte(w: u16) -> (b: u8)
    ensures
        b == high_byte(w),
{
    (w / 256) as u8
}

/// The low byte of a word.
pub fn lo_byte(w: u16) -> (b: u8)
    ensures
        b == low_byte(w),
{
    (w % 256) as u8
}

impl Registers {
    /// The value of `AF`.
    pub open spec fn spec_af(self) -> u16 {
        word_of(self.a, flags_byte(self.flags))
    }

    /// The value of `BC`.
    pub open spec fn spec_bc(self) -> u16 {
        word_of(self.b, self.c)
    }

    /// The value of `DE`.
    pub open spec fn spec_de(self) -> u16 {
        word_of(self.d, self.e)
    }

    /// The value of `HL`.
    pub open spec fn spec_hl(self) -> u16 {
        word_of(self.h, self.l)
    }

    /// The register file with `HL` replaced.
    pub open spec fn with_hl(self, value: u16) -> Registers {
        Registers { h: high_byte(value), l: low_byte(value), ..self }
    }

    /// The register file with `BC` replaced.
    pub open spec fn with_bc(self, value: u16) -> Registers {
        Registers { b: high_byte(value), c: low_byte(value), ..self }
    }

    /// The register file with `DE` replaced.
    pub open spec fn with_de(self, value: u16) -> Registers {
        Registers { d: high_byte(value), e: low_byte(value), ..self }
    }

    /// The register file with `AF` replaced: the low nibble of the word is
    /// lost.
    pub open spec fn with_af(self, value: u16) -> Registers {
        Registers { a: high_byte(value), flags: flags_of(low_byte(value)), ..self }
    }

    /// The state in which the boot program leaves the registers of the
    /// monochrome console.
    pub open spec fn post_boot() -> Registers {
        Registers {
            a: 0x01,
            b: 0x00,
            c: 0x13,
            d: 0x00,
            e: 0xD8,
            h: 0x01,
            l: 0x4D,
            sp: 0xFFFE,
            pc: 0x0100,
            flags: Flags { z: true, n: false, h: true, c: true },
        }
    }

    /// The registers as the boot program of the monochrome console
    /// leaves them: `AF` = `0x01B0`, `BC` = `0x0013`, `DE` = `0x00D8`,
    /// `HL` = `0x014D`, `SP` = `0xFFFE`, `PC` = `0x0100`.
    pub fn new() -> (r: Registers)
        ensures
            r == Registers::post_boot(),
            r.spec_af() == 0x01B0,
            r.spec_bc() == 0x0013,
            r.spec_de() == 0x00D8,
            r.spec_hl() == 0x014D,
    {
        Registers {
            a: 0x01,
            b: 0x00,
            c: 0x13,
            d: 0x00,
            e: 0xD8,
            h: 0x01,
            l: 0x4D,
            sp: 0xFFFE,
            pc: 0x0100,
            flags: Flags { z: true, n: false, h: true, c: true },
        }
    }

    /// The registers as the boot program of the colour console leaves them:
    /// as `new`, but with `A` = `0x11`.
    pub fn new_gbc() -> (r: Registers)
        ensures
            r == (Registers { a: 0x11, ..Registers::post_boot() }),
    {
        let mut r = Registers::new();
        r.a = 0x11;
        r
    }

    /// Reads `AF`. The low nibble of the result is zero.
    pub fn af(&self) -> (w: u16)
        ensures
            w == self.spec_af(),
            w & 0x000F == 0,
            high_byte(w) == self.a,
            low_byte(w) == flags_byte(self.flags),
    {
        let f = self.f();
        let w = make_word(self.a, f);
        proof {
            lemma_af_low_nibble(self.a, f);
        }
        w
    }

    /// Reads `BC`.
    pub fn bc(&self) -> (w: u16)
        ensures
            w == self.spec_bc(),
    {
        make_word(self.b, self.c)
    }

    /// Reads `DE`.
    pub fn de(&self) -> (w: u16)
        ensures
            w == self.spec_de(),
    {
        make_word(self.d, self.e)
    }

    /// Reads `HL`.
    pub fn hl(&self) -> (w: u16)
        ensures
            w == self.spec_hl(),
    {
        make_word(self.h, self.l)
    }

    /// Reads `HL`, then decrements it, wrapping at zero.
    pub fn hld(&mut self) -> (w: u16)
        ensures
            w == old(self).spec_hl(),
            *final(self) == old(self).with_hl(if w == 0 { 0xFFFFu16 } else { (w - 1) as u16 }),
    {
        let word = self.hl();
        self.set_hl(word.wrapping_sub(1));
        word
    }

    /// Reads `HL`, then increments it, wrapping at `0xFFFF`.
    pub fn hli(&mut self) -> (w: u16)
        ensures
            w == old(self).spec_hl(),
            *final(self) == old(self).with_hl(if w == 0xFFFF { 0u16 } else { (w + 1) as u16 }),
    {
        let word = self.hl();
        self.set_hl(word.wrapping_add(1));
        word
    }

    /// Reads `F`: the flags in bits 7 to 4, zero in bits 3 to 0.
    pub fn f(&self) -> (v: u8)
        ensures
            v == flags_byte(self.flags),
            v & 0x0F == 0,
            v & 0xF0 == v,
    {
        let mut v: u8 = 0;
        if self.flags.z {
            v += 0x80;
        }
        if self.flags.n {
            v += 0x40;
        }
        if self.flags.h {
            v += 0x20;
        }
        if self.flags.c {
            v += 0x10;
        }
        proof {
            lemma_flags_byte_nibble(self.flags);
        }
        v
    }

    /// Writes `AF`. Bits 3 to 0 of the word are dropped.
    pub fn set_af(&mut self, value: u16)
        ensures
            *final(self) == old(self).with_af(value),
            final(self).spec_af() == value & 0xFFF0,
    {
        self.a = hi_byte(value);
        self.set_f(lo_byte(value));
        proof {
            lemma_word_bytes(value);
            lemma_flags_round_trip(low_byte(value));
        }
    }

    /// Writes `BC`.
    pub fn set_bc(&mut self, value: u16)
        ensures
            *final(self) == old(self).with_bc(value),
            final(self).spec_bc() == value,
    {
        self.b = hi_byte(value);
        self.c = lo_byte(value);
    }

    /// Writes `DE`.
    pub fn set_de(&mut self, value: u16)
        ensures
            *final(self) == old(self).with_de(value),
            final(self).spec_de() == value,
    {
        self.d = hi_byte(value);
        self.e = lo_byte(value);
    }

    /// Writes `HL`.
    pub fn set_hl(&mut self, value: u16)
        ensures
            *final(self) == old(self).with_hl(value),
            final(self).spec_hl() == value,
    {
        self.h = hi_byte(value);
        self.l = lo_byte(value);
    }

    /// Writes the stack pointer.
    pub fn set_sp(&mut self, value: u16)
        ensures
            *final(self) == (Registers { sp: value, ..*old(self) }),
    {
        self.sp = value;
    }

    /// Writes `F`. Only bits 7 to 4 are kept.
    pub fn set_f(&mut self, value: u8)
        ensures
            *final(self) == (Registers { flags: flags_of(value), ..*old(self) }),
            flags_byte(final(self).flags) == value & 0xF0,
    {
        self.flags.z = (value & 0x80) != 0;
        self.flags.n = (value & 0x40) != 0;
        self.flags.h = (value & 0x20) != 0;
        self.flags.c = (value & 0x10) != 0;
        proof {
            lemma_flags_round_trip(value);
        }
    }
}

/// Whatever the flags are, `F` reads with its low nibble clear.
pub proof fn lemma_flags_byte_nibble(flags: Flags)
    ensures
        flags_byte(flags) & 0x0F == 0,
        flags_byte(flags) & 0xF0 == flags_byte(flags),
{
    let v = flags_byte(flags);
    assert(v == 0x00 || v == 0x10 || v == 0x20 || v == 0x30 || v == 0x40 || v == 0x50 || v == 0x60
        || v == 0x70 || v == 0x80 || v == 0x90 || v == 0xA0 || v == 0xB0 || v == 0xC0 || v == 0xD0
        || v == 0xE0 || v == 0xF0);
    assert(v & 0x0F == 0 && v & 0xF0 == v) by (bit_vector)
        requires
            v == 0x00 || v == 0x10 || v == 0x20 || v == 0x30 || v == 0x40 || v == 0x50 || v
                == 0x60 || v == 0x70 || v == 0x80 || v == 0x90 || v == 0xA0 || v == 0xB0 || v
                == 0xC0 || v == 0xD0 || v == 0xE0 || v == 0xF0,
    ;
}

/// Reading `F` after writing `value` to it yields `value & 0xF0`: the low
/// nibble of `F` is never observable.
pub proof fn lemma_flags_round_trip(value: u8)
    ensures
        flags_byte(flags_of(value)) == value & 0xF0,
        flags_byte(flags_of(value)) & 0x0F == 0,
{
    lemma_high_nibble(value);
    lemma_flags_byte_nibble(flags_of(value));
}

/// A word whose low byte has a clear low nibble has a clear low nibble.
pub proof fn lemma_af_low_nibble(a: u8, f: u8)
    requires
        f & 0x0F == 0,
    ensures
        word_of(a, f) & 0x000F == 0,
{
    let w = word_of(a, f);
    assert(w & 0x000F == 0) by (bit_vector)
        requires
            w == a as u16 * 256 + f as u16,
            f & 0x0F == 0,
    ;
}

/// Writing any word to `AF` and reading `AF` back yields the word masked
/// with `0xFFF0`.
pub proof fn lemma_af_round_trip(r: Registers, value: u16)
    ensures
        r.with_af(value).spec_af() == value & 0xFFF0,
{
    lemma_word_bytes(value);
    lemma_flags_round_trip(low_byte(value));
}

} // verus!
