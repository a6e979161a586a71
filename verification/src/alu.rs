//! The arithmetic and logic unit: pure functions from operands and flags to
//! a result and flags.
//!
//! Each operation is defined twice. The definition in integer arithmetic is
//! the reference; the executable code works on bits, as the hardware does,
//! and is proved to compute what the reference says.

use vstd::prelude::*;

verus! {

/// The four flags of the processor.
#[derive(Clone, Copy, Debug, PartialEq, Eq, Structural)]
pub struct Flags {
    /// The result was 0.
    pub zero: bool,
    /// The operation was a subtraction.
    pub subtract: bool,
    /// There was a carry out of, or a borrow into, the low nibble.
    pub half_carry: bool,
    /// There was a carry out of, or a borrow into, the whole result.
    pub carry: bool,
}

/// What an operation hands back: a value and the flags after it.
#[derive(Clone, Copy, Debug, PartialEq, Eq, Structural)]
pub struct AluResult {
    pub value: u8,
    pub flags: Flags,
}

/// A rotate or shift.
#[derive(Clone, Copy, Debug, PartialEq, Eq, Structural)]
pub enum Shift {
    /// Rotate left; bit 7 goes to bit 0 and to the carry.
    Rlc,
    /// Rotate right; bit 0 goes to bit 7 and to the carry.
    Rrc,
    /// Rotate left through the carry.
    Rl,
    /// Rotate right through the carry.
    Rr,
    /// Shift left; bit 0 becomes 0.
    Sla,
    /// Shift right; bit 7 stays.
    Sra,
    /// Exchange the nibbles.
    Swap,
    /// Shift right; bit 7 becomes 0.
    Srl,
}

/// 1 for true, 0 for false.
pub open spec fn bit_of(b: bool) -> int {
    if b {
        1
    } else {
        0
    }
}

impl Flags {
    /// The flag register: zero, subtract, half-carry and carry in bits 7 to
    /// 4, and 0 in the low nibble.
    pub open spec fn byte(self) -> u8 {
        (128 * bit_of(self.zero) + 64 * bit_of(self.subtract) + 32 * bit_of(self.half_carry) + 16
            * bit_of(self.carry)) as u8
    }

    /// The flags that a register value holds in its top four bits.
    pub open spec fn of(f: u8) -> Flags {
        Flags {
            zero: (f / 128) % 2 == 1,
            subtract: (f / 64) % 2 == 1,
            half_carry: (f / 32) % 2 == 1,
            carry: (f / 16) % 2 == 1,
        }
    }

    pub fn to_byte(self) -> (r: u8)
        ensures
            r == self.byte(),
            r % 16 == 0,
    {
        let z: u8 = if self.zero {
            0x80
        } else {
            0
        };
        let n: u8 = if self.subtract {
            0x40
        } else {
            0
        };
        let h: u8 = if self.half_carry {
            0x20
        } else {
            0
        };
        let c: u8 = if self.carry {
            0x10
        } else {
            0
        };
        z + n + h + c
    }

    pub fn from_byte(f: u8) -> (r: Flags)
        ensures
            r == Flags::of(f),
    {
        Flags {
            zero: (f / 128) % 2 == 1,
            subtract: (f / 64) % 2 == 1,
            half_carry: (f / 32) % 2 == 1,
            carry: (f / 16) % 2 == 1,
        }
    }
}

/// Flags and register value stand for each other, the low nibble of the
/// register apart.
pub proof fn flags_round_trip(flags: Flags, f: u8)
    ensures
        Flags::of(flags.byte()) == flags,
        Flags::of(f).byte() == f - f % 16,
        flags.byte() % 16 == 0,
{
}

// ----- the reference -----

/// `a + b + carry`: the sum modulo 256; zero if that is 0; half-carry if the
/// low nibbles and the carry sum to more than 15; carry if the whole sum is
/// more than 255.
#[verifier::opaque]
pub open spec fn add8(a: u8, b: u8, carry: bool) -> AluResult {
    let sum = a + b + bit_of(carry);
    AluResult {
        value: (sum % 256) as u8,
        flags: Flags {
            zero: sum % 256 == 0,
            subtract: false,
            half_carry: a % 16 + b % 16 + bit_of(carry) > 15,
            carry: sum > 255,
        },
    }
}

/// `a - b - carry`: the difference modulo 256; zero if that is 0; half-carry
/// if the low nibble of `a` is less than what is taken from it; carry if `a`
/// is less than what is taken from it.
#[verifier::opaque]
pub open spec fn sub8(a: u8, b: u8, carry: bool) -> AluResult {
    let difference = a - b - bit_of(carry);
    AluResult {
        value: (difference % 256) as u8,
        flags: Flags {
            zero: difference % 256 == 0,
            subtract: true,
            half_carry: a % 16 < b % 16 + bit_of(carry),
            carry: a < b + bit_of(carry),
        },
    }
}

/// A comparison is a subtraction whose difference is thrown away.
pub open spec fn cp8(a: u8, b: u8) -> AluResult {
    AluResult { value: a, flags: sub8(a, b, false).flags }
}

/// The bits set in both operands; half-carry is set.
pub open spec fn and8(a: u8, b: u8) -> AluResult {
    AluResult {
        value: a & b,
        flags: Flags { zero: a & b == 0, subtract: false, half_carry: true, carry: false },
    }
}

/// The bits set in either operand.
pub open spec fn or8(a: u8, b: u8) -> AluResult {
    AluResult {
        value: a | b,
        flags: Flags { zero: a | b == 0, subtract: false, half_carry: false, carry: false },
    }
}

/// The bits set in exactly one operand.
pub open spec fn xor8(a: u8, b: u8) -> AluResult {
    AluResult {
        value: a ^ b,
        flags: Flags { zero: a ^ b == 0, subtract: false, half_carry: false, carry: false },
    }
}

/// `v + 1`, which leaves the carry as it was.
#[verifier::opaque]
pub open spec fn inc8(v: u8, flags: Flags) -> AluResult {
    AluResult {
        value: ((v + 1) % 256) as u8,
        flags: Flags { zero: v == 255, subtract: false, half_carry: v % 16 == 15, carry: flags.carry },
    }
}

/// `v - 1`, which leaves the carry as it was.
#[verifier::opaque]
pub open spec fn dec8(v: u8, flags: Flags) -> AluResult {
    AluResult {
        value: ((v - 1) % 256) as u8,
        flags: Flags { zero: v == 1, subtract: true, half_carry: v % 16 == 0, carry: flags.carry },
    }
}

/// The value of a rotate or shift of `v`, with `carry` coming in.
#[verifier::opaque]
pub open spec fn shifted(kind: Shift, v: u8, carry: bool) -> int {
    match kind {
        Shift::Rlc => (v * 2) % 256 + v / 128,
        Shift::Rrc => v / 2 + (v % 2) * 128,
        Shift::Rl => (v * 2) % 256 + bit_of(carry),
        Shift::Rr => v / 2 + bit_of(carry) * 128,
        Shift::Sla => (v * 2) % 256,
        Shift::Sra => v / 2 + (v / 128) * 128,
        Shift::Swap => (v % 16) * 16 + v / 16,
        Shift::Srl => (v / 2) as int,
    }
}

/// The bit that a rotate or shift of `v` moves into the carry: bit 7 when
/// going left, bit 0 when going right, nothing when exchanging nibbles.
pub open spec fn shifted_out(kind: Shift, v: u8) -> bool {
    match kind {
        Shift::Rlc | Shift::Rl | Shift::Sla => v >= 128,
        Shift::Rrc | Shift::Rr | Shift::Sra | Shift::Srl => v % 2 == 1,
        Shift::Swap => false,
    }
}

/// A rotate or shift: zero if the result is 0, subtract and half-carry
/// clear, carry as the bit moved out.
pub open spec fn shift8(kind: Shift, v: u8, carry: bool) -> AluResult {
    AluResult {
        value: shifted(kind, v, carry) as u8,
        flags: Flags {
            zero: shifted(kind, v, carry) == 0,
            subtract: false,
            half_carry: false,
            carry: shifted_out(kind, v),
        },
    }
}

/// A rotate of the accumulator by its one-byte instruction: as the rotate,
/// but zero is always clear.
pub open spec fn rotate_a(kind: Shift, v: u8, carry: bool) -> AluResult {
    AluResult {
        value: shift8(kind, v, carry).value,
        flags: Flags { zero: false, ..shift8(kind, v, carry).flags },
    }
}

/// Bit `n` of `v` is set.
pub open spec fn bit_set(v: u8, n: u8) -> bool {
    (v >> n) & 1 == 1
}

/// The test of bit `n`: zero if the bit is clear, subtract clear,
/// half-carry set, carry as it was.
pub open spec fn bit_flags(v: u8, n: u8, flags: Flags) -> Flags {
    Flags { zero: !bit_set(v, n), subtract: false, half_carry: true, carry: flags.carry }
}

/// `v` with bit `n` set.
pub open spec fn with_bit(v: u8, n: u8) -> u8 {
    v | (1u8 << n)
}

/// `v` with bit `n` clear.
pub open spec fn without_bit(v: u8, n: u8) -> u8 {
    v & !(1u8 << n)
}

/// The sum of two words modulo 65536.
#[verifier::opaque]
pub open spec fn add16(a: u16, b: u16) -> u16 {
    ((a + b) % 0x10000) as u16
}

/// The flags after a word is added to HL: zero as it was, subtract clear,
/// half-carry for a carry out of bit 11, carry for one out of bit 15.
#[verifier::opaque]
pub open spec fn add16_flags(a: u16, b: u16, flags: Flags) -> Flags {
    Flags {
        zero: flags.zero,
        subtract: false,
        half_carry: a % 0x1000 + b % 0x1000 > 0x0FFF,
        carry: a + b > 0xFFFF,
    }
}

/// The stack pointer moved by a signed byte, modulo 65536.
#[verifier::opaque]
pub open spec fn offset16(sp: u16, e: i8) -> u16 {
    ((sp + e) % 0x10000) as u16
}

/// The byte that holds a signed number.
pub open spec fn unsigned(e: i8) -> int {
    if e < 0 {
        e + 256
    } else {
        e as int
    }
}

/// The flags after a signed byte is added to the stack pointer: zero and
/// subtract clear, half-carry and carry as for the sum of the low bytes.
#[verifier::opaque]
pub open spec fn offset16_flags(sp: u16, e: i8) -> Flags {
    Flags {
        zero: false,
        subtract: false,
        half_carry: sp % 16 + unsigned(e) % 16 > 15,
        carry: sp % 256 + unsigned(e) > 255,
    }
}

// ----- the bits -----

proof fn nibble_is_remainder(a: u8)
    by (bit_vector)
    ensures
        a & 0x0F == a % 16,
{
}

proof fn rlc_in_bits(v: u8)
    by (bit_vector)
    ensures
        (v << 1u8) | (v >> 7u8) == (v * 2) % 256 + v / 128,
{
}

proof fn rrc_in_bits(v: u8)
    by (bit_vector)
    ensures
        (v >> 1u8) | ((v & 1) << 7u8) == v / 2 + (v % 2) * 128,
{
}

proof fn rl_in_bits(v: u8, c: u8)
    by (bit_vector)
    requires
        c <= 1,
    ensures
        (v << 1u8) | c == (v * 2) % 256 + c,
{
}

proof fn rr_in_bits(v: u8, c: u8)
    by (bit_vector)
    requires
        c <= 1,
    ensures
        (v >> 1u8) | (c << 7u8) == v / 2 + c * 128,
{
}

proof fn sla_in_bits(v: u8)
    by (bit_vector)
    ensures
        v << 1u8 == (v * 2) % 256,
{
}

proof fn sra_in_bits(v: u8)
    by (bit_vector)
    ensures
        (v >> 1u8) | (v & 0x80) == v / 2 + (v / 128) * 128,
{
}

proof fn swap_in_bits(v: u8)
    by (bit_vector)
    ensures
        (v << 4u8) | (v >> 4u8) == (v % 16) * 16 + v / 16,
{
}

proof fn single_bits(v: u8)
    by (bit_vector)
    ensures
        v >> 7u8 == v / 128,
        v & 1 == v % 2,
        v >> 1u8 == v / 2,
        (v & 0x80 == 0x80) == (v >= 128),
        (v & 0x01 == 0x01) == (v % 2 == 1),
{
}

// ----- the executable code -----

pub fn alu_add(a: u8, b: u8, carry: bool) -> (r: AluResult)
    ensures
        r == add8(a, b, carry),
{
    proof {
        reveal(add8);
    }
    let c: u8 = if carry {
        1
    } else {
        0
    };
    let value: u8 = a.wrapping_add(b).wrapping_add(c);
    proof {
        nibble_is_remainder(a);
        nibble_is_remainder(b);
    }
    AluResult {
        value,
        flags: Flags {
            zero: value == 0,
            subtract: false,
            half_carry: (a & 0x0F) + (b & 0x0F) + c > 0x0F,
            carry: (a as u16) + (b as u16) + (c as u16) > 0xFF,
        },
    }
}

pub fn alu_sub(a: u8, b: u8, carry: bool) -> (r: AluResult)
    ensures
        r == sub8(a, b, carry),
{
    proof {
        reveal(sub8);
    }
    let c: u8 = if carry {
        1
    } else {
        0
    };
    let value: u8 = a.wrapping_sub(b).wrapping_sub(c);
    proof {
        nibble_is_remainder(a);
        nibble_is_remainder(b);
    }
    AluResult {
        value,
        flags: Flags {
            zero: value == 0,
            subtract: true,
            half_carry: (a & 0x0F) < (b & 0x0F) + c,
            carry: (a as u16) < (b as u16) + (c as u16),
        },
    }
}

pub fn alu_cp(a: u8, b: u8) -> (r: AluResult)
    ensures
        r == cp8(a, b),
{
    proof {
        reveal(sub8);
    }
    let difference = alu_sub(a, b, false);
    AluResult { value: a, flags: difference.flags }
}

pub fn alu_and(a: u8, b: u8) -> (r: AluResult)
    ensures
        r == and8(a, b),
{
    let value: u8 = a & b;
    AluResult {
        value,
        flags: Flags { zero: value == 0, subtract: false, half_carry: true, carry: false },
    }
}

pub fn alu_or(a: u8, b: u8) -> (r: AluResult)
    ensures
        r == or8(a, b),
{
    let value: u8 = a | b;
    AluResult {
        value,
        flags: Flags { zero: value == 0, subtract: false, half_carry: false, carry: false },
    }
}

pub fn alu_xor(a: u8, b: u8) -> (r: AluResult)
    ensures
        r == xor8(a, b),
{
    let value: u8 = a ^ b;
    AluResult {
        value,
        flags: Flags { zero: value == 0, subtract: false, half_carry: false, carry: false },
    }
}

pub fn alu_inc(v: u8, flags: Flags) -> (r: AluResult)
    ensures
        r == inc8(v, flags),
{
    proof {
        reveal(inc8);
    }
    let value: u8 = v.wrapping_add(1);
    proof {
        nibble_is_remainder(v);
    }
    AluResult {
        value,
        flags: Flags {
            zero: value == 0,
            subtract: false,
            half_carry: (v & 0x0F) + 1 > 0x0F,
            carry: flags.carry,
        },
    }
}

pub fn alu_dec(v: u8, flags: Flags) -> (r: AluResult)
    ensures
        r == dec8(v, flags),
{
    proof {
        reveal(dec8);
    }
    let value: u8 = v.wrapping_sub(1);
    proof {
        nibble_is_remainder(v);
    }
    AluResult {
        value,
        flags: Flags {
            zero: value == 0,
            subtract: true,
            half_carry: (v & 0x0F) < 1,
            carry: flags.carry,
        },
    }
}

pub fn shift(kind: Shift, v: u8, carry: bool) -> (r: AluResult)
    ensures
        r == shift8(kind, v, carry),
{
    proof {
        reveal(shifted);
    }
    let old_c: u8 = if carry {
        1
    } else {
        0
    };
    proof {
        rlc_in_bits(v);
        rrc_in_bits(v);
        rl_in_bits(v, old_c);
        rr_in_bits(v, old_c);
        sla_in_bits(v);
        sra_in_bits(v);
        swap_in_bits(v);
        single_bits(v);
    }
    let (value, out): (u8, bool) = match kind {
        Shift::Rlc => ((v << 1u8) | (v >> 7u8), v >> 7u8 == 1),
        Shift::Rrc => ((v >> 1u8) | ((v & 1) << 7u8), v & 1 == 1),
        Shift::Rl => ((v << 1u8) | old_c, v >> 7u8 == 1),
        Shift::Rr => ((v >> 1u8) | (old_c << 7u8), v & 1 == 1),
        Shift::Sla => (v << 1u8, v & 0x80 == 0x80),
        Shift::Sra => ((v >> 1u8) | (v & 0x80), v & 0x01 == 0x01),
        Shift::Swap => ((v << 4u8) | (v >> 4u8), false),
        Shift::Srl => (v >> 1u8, v & 0x01 == 0x01),
    };
    AluResult {
        value,
        flags: Flags { zero: value == 0, subtract: false, half_carry: false, carry: out },
    }
}

pub fn rotate_accumulator(kind: Shift, v: u8, carry: bool) -> (r: AluResult)
    ensures
        r == rotate_a(kind, v, carry),
{
    let rotated = shift(kind, v, carry);
    AluResult {
        value: rotated.value,
        flags: Flags {
            zero: false,
            subtract: rotated.flags.subtract,
            half_carry: rotated.flags.half_carry,
            carry: rotated.flags.carry,
        },
    }
}

pub fn test_bit(v: u8, n: u8, flags: Flags) -> (r: Flags)
    requires
        n <= 7,
    ensures
        r == bit_flags(v, n, flags),
{
    Flags { zero: !((v >> n) & 1 == 1), subtract: false, half_carry: true, carry: flags.carry }
}

pub fn set_bit(v: u8, n: u8) -> (r: u8)
    requires
        n <= 7,
    ensures
        r == with_bit(v, n),
{
    v | (1u8 << n)
}

pub fn reset_bit(v: u8, n: u8) -> (r: u8)
    requires
        n <= 7,
    ensures
        r == without_bit(v, n),
{
    v & !(1u8 << n)
}

pub fn add_words(a: u16, b: u16, flags: Flags) -> (r: (u16, Flags))
    ensures
        r.0 == add16(a, b),
        r.1 == add16_flags(a, b, flags),
{
    proof {
        reveal(add16);
        reveal(add16_flags);
    }
    (
        a.wrapping_add(b),
        Flags {
            zero: flags.zero,
            subtract: false,
            half_carry: crate::utils::is_add_half_carry16(a, b),
            carry: crate::utils::is_add_carry16(a, b),
        },
    )
}

pub fn add_offset(sp: u16, e: i8) -> (r: (u16, Flags))
    ensures
        r.0 == offset16(sp, e),
        r.1 == offset16_flags(sp, e),
{
    proof {
        reveal(offset16);
        reveal(offset16_flags);
    }
    let byte: u16 = if e < 0 {
        (e as i16 + 256) as u16
    } else {
        e as u16
    };
    let value: u16 = if e < 0 {
        sp.wrapping_sub(256 - byte)
    } else {
        sp.wrapping_add(byte)
    };
    (
        value,
        Flags {
            zero: false,
            subtract: false,
            half_carry: sp % 16 + byte % 16 > 15,
            carry: sp % 256 + byte > 255,
        },
    )
}

/// The carry of a rotate or shift is the bit that leaves the byte: bit 7
/// for the ones that go left, bit 0 for the ones that go right.
pub proof fn carry_is_the_bit_moved_out(kind: Shift, v: u8, carry: bool)
    ensures
        kind == Shift::Rlc || kind == Shift::Rl || kind == Shift::Sla ==> shift8(
            kind,
            v,
            carry,
        ).flags.carry == (v / 128 == 1),
        kind == Shift::Rrc || kind == Shift::Rr || kind == Shift::Sra || kind == Shift::Srl
            ==> shift8(kind, v, carry).flags.carry == (v % 2 == 1),
        !shift8(kind, v, carry).flags.subtract,
        !shift8(kind, v, carry).flags.half_carry,
        !rotate_a(kind, v, carry).flags.zero,
{
    reveal(shifted);
}

} // verus!
