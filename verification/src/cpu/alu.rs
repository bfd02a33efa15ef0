//! The arithmetic unit: what each operation does to the accumulator and
//! the flags.

use vstd::prelude::*;
use crate::cpu::registers::Flags;
use crate::cpu::registers::Registers;

verus! {

/// A byte and the flags that an operation leaves.
#[derive(Debug, Copy, Clone, PartialEq, Eq, Structural)]
pub struct AluResult {
    /// The byte.
    pub value: u8,
    /// The flags.
    pub flags: Flags,
}

/// 1 if `carry`, else 0.
pub open spec fn carry_in(carry: bool) -> int {
    if carry {
        1
    } else {
        0
    }
}

/// A byte taken as a signed displacement: -128 to 127.
pub open spec fn spec_signed(byte: u8) -> int {
    if byte < 128 {
        byte as int
    } else {
        byte - 256
    }
}

/// `a + value + carry`: Z if the byte is zero, N clear, H on a carry out
/// of bit 3, C on a carry out of bit 7.
pub open spec fn spec_add(a: u8, value: u8, carry: bool) -> AluResult {
    let sum = a + value + carry_in(carry);
    AluResult {
        value: (sum % 256) as u8,
        flags: Flags {
            z: sum % 256 == 0,
            n: false,
            h: a % 16 + value % 16 + carry_in(carry) > 15,
            c: sum > 255,
        },
    }
}

/// `a - value - carry`: Z if the byte is zero, N set, H on a borrow into
/// bit 3, C on a borrow into bit 7.
pub open spec fn spec_sub(a: u8, value: u8, carry: bool) -> AluResult {
    let difference = a - value - carry_in(carry);
    AluResult {
        value: (difference % 256) as u8,
        flags: Flags {
            z: difference % 256 == 0,
            n: true,
            h: a % 16 < value % 16 + carry_in(carry),
            c: a < value + carry_in(carry),
        },
    }
}

/// `a & value`: Z if zero, H set, N and C clear.
pub open spec fn spec_and(a: u8, value: u8) -> AluResult {
    AluResult { value: a & value, flags: Flags { z: a & value == 0, n: false, h: true, c: false } }
}

/// `a | value`: Z if zero, the other flags clear.
pub open spec fn spec_or(a: u8, value: u8) -> AluResult {
    AluResult { value: a | value, flags: Flags { z: a | value == 0, n: false, h: false, c: false } }
}

/// `a ^ value`: Z if zero, the other flags clear.
pub open spec fn spec_xor(a: u8, value: u8) -> AluResult {
    AluResult { value: a ^ value, flags: Flags { z: a ^ value == 0, n: false, h: false, c: false } }
}

/// `value + 1`: Z if zero, N clear, H on a carry out of bit 3, C kept.
pub open spec fn spec_inc(value: u8, flags: Flags) -> AluResult {
    AluResult {
        value: ((value + 1) % 256) as u8,
        flags: Flags { z: value == 255, n: false, h: value % 16 == 15, c: flags.c },
    }
}

/// `value - 1`: Z if zero, N set, H on a borrow into bit 3, C kept.
pub open spec fn spec_dec(value: u8, flags: Flags) -> AluResult {
    AluResult {
        value: ((value - 1) % 256) as u8,
        flags: Flags { z: value == 1, n: true, h: value % 16 == 0, c: flags.c },
    }
}

/// The correction that makes the accumulator a packed decimal number
/// again after an addition or subtraction of two such numbers.
pub open spec fn spec_daa_adjust(a: u8, flags: Flags) -> int {
    (if flags.c || (!flags.n && a > 0x99) { 0x60int } else { 0 }) + (if flags.h || (!flags.n && a
        % 16 > 9) { 0x06int } else { 0 })
}

/// The decimal adjustment: the correction is added after an addition and
/// subtracted after a subtraction; C is set if the high digit was
/// corrected, H is cleared, N is kept.
pub open spec fn spec_daa(a: u8, flags: Flags) -> AluResult {
    let adjust = spec_daa_adjust(a, flags);
    let value = if flags.n { (a - adjust) % 256 } else { (a + adjust) % 256 };
    AluResult {
        value: value as u8,
        flags: Flags { z: value == 0, n: flags.n, h: false, c: adjust >= 0x60 },
    }
}

/// The eight rotations and shifts of the extended opcodes, by number:
/// RLC, RRC, RL, RR, SLA, SRA, SWAP, SRL. C takes the bit that leaves
/// the byte (none for SWAP), Z is set if the result is zero, N and H are
/// cleared.
pub open spec fn spec_rotate(kind: u8, value: u8, flags: Flags) -> AluResult {
    let top = value / 128;
    let bottom = value % 2;
    let result: int = if kind == 0 {
        (value * 2) % 256 + top
    } else if kind == 1 {
        value / 2 + bottom * 128
    } else if kind == 2 {
        (value * 2) % 256 + carry_in(flags.c)
    } else if kind == 3 {
        value / 2 + carry_in(flags.c) * 128
    } else if kind == 4 {
        (value * 2) % 256
    } else if kind == 5 {
        value / 2 + top * 128
    } else if kind == 6 {
        (value % 16) * 16 + value / 16
    } else {
        value as int / 2
    };
    let leaves = if kind == 0 || kind == 2 || kind == 4 {
        top == 1
    } else if kind == 6 {
        false
    } else {
        bottom == 1
    };
    AluResult { value: result as u8, flags: Flags { z: result == 0, n: false, h: false, c: leaves } }
}

/// The flags after BIT: Z if bit `bit` of `value` is clear, N clear, H
/// set, C kept.
pub open spec fn spec_bit_flags(bit: u8, value: u8, flags: Flags) -> Flags {
    Flags { z: (value >> bit) & 1 == 0, n: false, h: true, c: flags.c }
}

/// `hl + value` on 16 bits: Z kept, N clear, H on a carry out of bit 11,
/// C on a carry out of bit 15.
pub open spec fn spec_add16(hl: u16, value: u16, flags: Flags) -> (u16, Flags) {
    (
        ((hl + value) % 65536) as u16,
        Flags {
            z: flags.z,
            n: false,
            h: hl % 4096 + value % 4096 > 4095,
            c: hl + value > 65535,
        },
    )
}

/// `sp` plus the signed displacement `byte`: Z and N clear, H and C as
/// for the addition of `byte` to the low byte of `sp`.
pub open spec fn spec_add16imm(sp: u16, byte: u8) -> (u16, Flags) {
    (
        ((sp + spec_signed(byte)) % 65536) as u16,
        Flags { z: false, n: false, h: sp % 16 + byte % 16 > 15, c: sp % 256 + byte > 255 },
    )
}

impl Registers {
    /// The registers with the accumulator and the flags of `result`.
    pub open spec fn with_result(self, result: AluResult) -> Registers {
        Registers { a: result.value, flags: result.flags, ..self }
    }

    /// The registers after one of the eight operations on the
    /// accumulator, by number: ADD, ADC, SUB, SBC, AND, XOR, OR, CP. CP
    /// sets the flags of SUB and keeps the accumulator.
    pub open spec fn spec_alu(self, operation: u8, value: u8) -> Registers {
        if operation == 0 {
            self.with_result(spec_add(self.a, value, false))
        } else if operation == 1 {
            self.with_result(spec_add(self.a, value, self.flags.c))
        } else if operation == 2 {
            self.with_result(spec_sub(self.a, value, false))
        } else if operation == 3 {
            self.with_result(spec_sub(self.a, value, self.flags.c))
        } else if operation == 4 {
            self.with_result(spec_and(self.a, value))
        } else if operation == 5 {
            self.with_result(spec_xor(self.a, value))
        } else if operation == 6 {
            self.with_result(spec_or(self.a, value))
        } else {
            Registers { flags: spec_sub(self.a, value, false).flags, ..self }
        }
    }

    /// Adds `value`, and the carry if `usec`, to the accumulator.
    pub fn alu_add(&mut self, value: u8, usec: bool)
        ensures
            *final(self) == old(self).with_result(
                spec_add(old(self).a, value, usec && old(self).flags.c),
            ),
    {
        let carry: u16 = if usec && self.flags.c {
            1
        } else {
            0
        };
        let a = self.a;
        let sum: u16 = a as u16 + value as u16 + carry;
        self.a = (sum % 256) as u8;
        self.flags.z = sum % 256 == 0;
        self.flags.n = false;
        self.flags.h = (a % 16) as u16 + (value % 16) as u16 + carry > 15;
        self.flags.c = sum > 255;
    }

    /// Subtracts `byte`, and the carry if `usec`, from the accumulator.
    pub fn alu_sub(&mut self, byte: u8, usec: bool)
        ensures
            *final(self) == old(self).with_result(
                spec_sub(old(self).a, byte, usec && old(self).flags.c),
            ),
    {
        let carry: u16 = if usec && self.flags.c {
            1
        } else {
            0
        };
        let a = self.a;
        let difference: u16 = 256 + a as u16 - byte as u16 - carry;
        self.a = (difference % 256) as u8;
        self.flags.z = difference % 256 == 0;
        self.flags.n = true;
        self.flags.h = ((a % 16) as u16) < (byte % 16) as u16 + carry;
        self.flags.c = (a as u16) < byte as u16 + carry;
    }

    /// Compares the accumulator with `byte`: the flags of a subtraction,
    /// the accumulator kept.
    pub fn alu_cp(&mut self, byte: u8)
        ensures
            *final(self) == (Registers {
                flags: spec_sub(old(self).a, byte, false).flags,
                ..*old(self)
            }),
    {
        let a = self.a;
        self.alu_sub(byte, false);
        self.a = a;
    }

    /// Ands `value` into the accumulator.
    pub fn alu_and(&mut self, value: u8)
        ensures
            *final(self) == old(self).with_result(spec_and(old(self).a, value)),
    {
        let result = self.a & value;
        self.a = result;
        self.flags.z = result == 0;
        self.flags.n = false;
        self.flags.h = true;
        self.flags.c = false;
    }

    /// Ors `value` into the accumulator.
    pub fn alu_or(&mut self, value: u8)
        ensures
            *final(self) == old(self).with_result(spec_or(old(self).a, value)),
    {
        let result = self.a | value;
        self.a = result;
        self.flags.z = result == 0;
        self.flags.n = false;
        self.flags.h = false;
        self.flags.c = false;
    }

    /// Exclusive-ors `byte` into the accumulator.
    pub fn alu_xor(&mut self, byte: u8)
        ensures
            *final(self) == old(self).with_result(spec_xor(old(self).a, byte)),
    {
        let result = self.a ^ byte;
        self.a = result;
        self.flags.z = result == 0;
        self.flags.n = false;
        self.flags.h = false;
        self.flags.c = false;
    }

    /// One of the eight operations on the accumulator, by number.
    pub fn alu(&mut self, operation: u8, value: u8)
        requires
            operation < 8,
        ensures
            *final(self) == old(self).spec_alu(operation, value),
    {
        match operation {
            0 => self.alu_add(value, false),
            1 => self.alu_add(value, true),
            2 => self.alu_sub(value, false),
            3 => self.alu_sub(value, true),
            4 => self.alu_and(value),
            5 => self.alu_xor(value),
            6 => self.alu_or(value),
            _ => self.alu_cp(value),
        }
    }

    /// Increments `value` and sets the flags.
    pub fn alu_inc(&mut self, value: u8) -> (result: u8)
        ensures
            result == spec_inc(value, old(self).flags).value,
            *final(self) == (Registers { flags: spec_inc(value, old(self).flags).flags, ..*old(self) }),
    {
        let result = value.wrapping_add(1);
        self.flags.z = result == 0;
        self.flags.n = false;
        self.flags.h = value % 16 == 15;
        result
    }

    /// Decrements `value` and sets the flags.
    pub fn alu_dec(&mut self, value: u8) -> (result: u8)
        ensures
            result == spec_dec(value, old(self).flags).value,
            *final(self) == (Registers { flags: spec_dec(value, old(self).flags).flags, ..*old(self) }),
    {
        let result = value.wrapping_sub(1);
        self.flags.z = result == 0;
        self.flags.n = true;
        self.flags.h = value % 16 == 0;
        result
    }

    /// Adjusts the accumulator to packed decimal.
    pub fn alu_daa(&mut self)
        ensures
            *final(self) == old(self).with_result(spec_daa(old(self).a, old(self).flags)),
    {
        let a = self.a;
        let mut adjust: u16 = 0;
        if self.flags.c || (!self.flags.n && a > 0x99) {
            adjust += 0x60;
        }
        if self.flags.h || (!self.flags.n && a % 16 > 9) {
            adjust += 0x06;
        }
        let value: u16 = if self.flags.n {
            (256 + a as u16 - adjust) % 256
        } else {
            (a as u16 + adjust) % 256
        };
        self.a = value as u8;
        self.flags.c = adjust >= 0x60;
        self.flags.h = false;
        self.flags.z = value == 0;
    }

    /// Sets the flags after a rotation or shift.
    pub fn alu_srflagupdate(&mut self, result: u8, carry: bool)
        ensures
            *final(self) == (Registers {
                flags: Flags { z: result == 0, n: false, h: false, c: carry },
                ..*old(self)
            }),
    {
        self.flags.h = false;
        self.flags.n = false;
        self.flags.c = carry;
        self.flags.z = result == 0;
    }

    /// One of the eight rotations and shifts, by number.
    pub fn alu_rotate(&mut self, kind: u8, value: u8) -> (result: u8)
        requires
            kind < 8,
        ensures
            result == spec_rotate(kind, value, old(self).flags).value,
            *final(self) == (Registers {
                flags: spec_rotate(kind, value, old(self).flags).flags,
                ..*old(self)
            }),
    {
        let top: u8 = value / 128;
        let bottom: u8 = value % 2;
        let carry: u8 = if self.flags.c {
            1
        } else {
            0
        };
        let doubled: u8 = ((value as u16 * 2) % 256) as u8;
        let result: u8 = match kind {
            0 => doubled + top,
            1 => value / 2 + bottom * 128,
            2 => doubled + carry,
            3 => value / 2 + carry * 128,
            4 => doubled,
            5 => value / 2 + top * 128,
            6 => (value % 16) * 16 + value / 16,
            _ => value / 2,
        };
        let leaves = match kind {
            0 | 2 | 4 => top == 1,
            6 => false,
            _ => bottom == 1,
        };
        self.alu_srflagupdate(result, leaves);
        result
    }

    /// Rotates `value` left through the carry.
    pub fn alu_rl(&mut self, value: u8) -> (result: u8)
        ensures
            result == spec_rotate(2, value, old(self).flags).value,
            *final(self) == (Registers {
                flags: spec_rotate(2, value, old(self).flags).flags,
                ..*old(self)
            }),
    {
        self.alu_rotate(2, value)
    }

    /// Tests bit `v2` of `v1`.
    pub fn alu_bit(&mut self, v1: u8, v2: u8)
        requires
            v2 < 8,
        ensures
            *final(self) == (Registers {
                flags: spec_bit_flags(v2, v1, old(self).flags),
                ..*old(self)
            }),
    {
        self.flags.z = (v1 >> v2) & 1 == 0;
        self.flags.n = false;
        self.flags.h = true;
    }

    /// Adds `value` to HL.
    pub fn alu_add16(&mut self, value: u16)
        ensures
            *final(self) == (Registers {
                flags: spec_add16(old(self).spec_hl(), value, old(self).flags).1,
                ..old(self).with_hl(spec_add16(old(self).spec_hl(), value, old(self).flags).0)
            }),
    {
        let hl = self.hl();
        let sum: u32 = hl as u32 + value as u32;
        self.set_hl((sum % 65536) as u16);
        self.flags.n = false;
        self.flags.h = (hl % 4096) as u32 + (value % 4096) as u32 > 4095;
        self.flags.c = sum > 65535;
    }

    /// Adds the signed displacement `byte` to `sp`, sets the flags and
    /// returns the sum.
    pub fn alu_add16imm(&mut self, sp: u16, byte: u8) -> (result: u16)
        ensures
            result == spec_add16imm(sp, byte).0,
            *final(self) == (Registers { flags: spec_add16imm(sp, byte).1, ..*old(self) }),
    {
        self.flags.z = false;
        self.flags.n = false;
        self.flags.h = (sp % 16) as u16 + (byte % 16) as u16 > 15;
        self.flags.c = sp % 256 + byte as u16 > 255;
        let sum: u32 = if byte < 128 {
            sp as u32 + byte as u32
        } else {
            65536 + sp as u32 + byte as u32 - 256
        };
        (sum % 65536) as u16
    }
}

} // verus!
