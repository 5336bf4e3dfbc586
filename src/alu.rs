//! The arithmetic and logic unit: pure functions from operands and flags to a result and flags.
use vstd::prelude::*;
use crate::machine::{Flags, even_parity, ones, wrap8, wrap16};

verus! {

/// A result byte together with the flags it leaves.
#[derive(Clone, Copy, PartialEq, Eq, Structural, Debug)]
pub struct AluOut {
    pub value: u8,
    pub flags: Flags,
}

pub open spec fn carry_value(c: bool) -> int {
    if c {
        1
    } else {
        0
    }
}

/// Flags after an operation that leaves `v` in the accumulator.
pub open spec fn result_flags(v: u8, aux_carry: bool, carry: bool) -> Flags {
    Flags { sign: v >= 128, zero: v == 0, aux_carry, parity: even_parity(v as nat), carry }
}

pub open spec fn add_spec(a: u8, b: u8, carry_in: bool) -> AluOut {
    let sum = a + b + carry_value(carry_in);
    AluOut {
        value: wrap8(sum),
        flags: result_flags(wrap8(sum), a % 16 + b % 16 + carry_value(carry_in) > 15, sum > 255),
    }
}

/// Subtraction; carry and auxiliary carry mean a borrow out of bit 7 and out of bit 3.
pub open spec fn sub_spec(a: u8, b: u8, borrow_in: bool) -> AluOut {
    let diff = a - b - carry_value(borrow_in);
    AluOut {
        value: wrap8(diff),
        flags: result_flags(wrap8(diff), a % 16 < b % 16 + carry_value(borrow_in), diff < 0),
    }
}

/// AND: carry cleared, auxiliary carry set.
pub open spec fn and_spec(a: u8, b: u8) -> AluOut {
    AluOut { value: a & b, flags: result_flags(a & b, true, false) }
}

/// OR: carry and auxiliary carry cleared.
pub open spec fn or_spec(a: u8, b: u8) -> AluOut {
    AluOut { value: a | b, flags: result_flags(a | b, false, false) }
}

/// XOR: carry and auxiliary carry cleared.
pub open spec fn xor_spec(a: u8, b: u8) -> AluOut {
    AluOut { value: a ^ b, flags: result_flags(a ^ b, false, false) }
}

/// Increment by one; the carry flag is kept.
pub open spec fn inc_spec(v: u8, carry: bool) -> AluOut {
    let r = add_spec(v, 1, false);
    AluOut { value: r.value, flags: Flags { carry, ..r.flags } }
}

/// Decrement by one; the carry flag is kept.
pub open spec fn dec_spec(v: u8, carry: bool) -> AluOut {
    let r = sub_spec(v, 1, false);
    AluOut { value: r.value, flags: Flags { carry, ..r.flags } }
}

/// Decimal adjust of the accumulator after a BCD addition.
pub open spec fn daa_spec(a: u8, f: Flags) -> AluOut {
    let low_adjust = a % 16 > 9 || f.aux_carry;
    let high_adjust = a > 0x99 || f.carry;
    let low = if low_adjust {
        6int
    } else {
        0
    };
    let high = if high_adjust {
        0x60int
    } else {
        0
    };
    AluOut {
        value: wrap8(a + low + high),
        flags: result_flags(wrap8(a + low + high), a % 16 + low > 15, high_adjust),
    }
}

/// Rotate left; bit 7 goes to bit 0 and to the carry.
pub open spec fn rlc_spec(a: u8, f: Flags) -> AluOut {
    AluOut { value: wrap8(a * 2 + a / 128), flags: Flags { carry: a >= 128, ..f } }
}

/// Rotate right; bit 0 goes to bit 7 and to the carry.
pub open spec fn rrc_spec(a: u8, f: Flags) -> AluOut {
    AluOut { value: (a / 2 + (a % 2) * 128) as u8, flags: Flags { carry: a % 2 == 1, ..f } }
}

/// Rotate left through the carry.
pub open spec fn ral_spec(a: u8, f: Flags) -> AluOut {
    AluOut { value: wrap8(a * 2 + carry_value(f.carry)), flags: Flags { carry: a >= 128, ..f } }
}

/// Rotate right through the carry.
pub open spec fn rar_spec(a: u8, f: Flags) -> AluOut {
    AluOut {
        value: (a / 2 + carry_value(f.carry) * 128) as u8,
        flags: Flags { carry: a % 2 == 1, ..f },
    }
}

/// 16-bit addition: the wrapped sum and the carry out of bit 15.
pub open spec fn add16_spec(x: u16, y: u16) -> (u16, bool) {
    (wrap16(x + y), x + y > 65535)
}

/// Even parity of a byte.
pub fn parity8(x: u8) -> (r: bool)
    ensures
        r == even_parity(x as nat),
{
    let mut y: u8 = x;
    let mut even: bool = true;
    while y > 0
        invariant
            even_parity(x as nat) == (even == even_parity(y as nat)),
        decreases y,
    {
        assert(ones(y as nat) == (y as nat) % 2 + ones((y as nat) / 2));
        if y % 2 == 1 {
            even = !even;
        }
        y = y / 2;
    }
    even
}

/// Even parity of a word.
pub fn parity16(x: u16) -> (r: bool)
    ensures
        r == even_parity(x as nat),
{
    let mut y: u16 = x;
    let mut even: bool = true;
    while y > 0
        invariant
            even_parity(x as nat) == (even == even_parity(y as nat)),
        decreases y,
    {
        assert(ones(y as nat) == (y as nat) % 2 + ones((y as nat) / 2));
        if y % 2 == 1 {
            even = !even;
        }
        y = y / 2;
    }
    even
}

fn flags_for(v: u8, aux_carry: bool, carry: bool) -> (r: Flags)
    ensures
        r == result_flags(v, aux_carry, carry),
{
    Flags { sign: v >= 128, zero: v == 0, aux_carry, parity: parity8(v), carry }
}

pub fn add8(a: u8, b: u8, carry_in: bool) -> (r: AluOut)
    ensures
        r == add_spec(a, b, carry_in),
{
    let cin: u16 = if carry_in {
        1
    } else {
        0
    };
    let sum: u16 = a as u16 + b as u16 + cin;
    let value = (sum % 256) as u8;
    let aux = (a % 16) as u16 + (b % 16) as u16 + cin > 15;
    AluOut { value, flags: flags_for(value, aux, sum > 255) }
}

pub fn sub8(a: u8, b: u8, borrow_in: bool) -> (r: AluOut)
    ensures
        r == sub_spec(a, b, borrow_in),
{
    let bin: u16 = if borrow_in {
        1
    } else {
        0
    };
    let subtrahend: u16 = b as u16 + bin;
    let value = ((a as u16 + 256 - subtrahend) % 256) as u8;
    assert(wrap8(a - b - carry_value(borrow_in)) == value);
    let aux = ((a % 16) as u16) < (b % 16) as u16 + bin;
    AluOut { value, flags: flags_for(value, aux, (a as u16) < subtrahend) }
}

pub fn and8(a: u8, b: u8) -> (r: AluOut)
    ensures
        r == and_spec(a, b),
{
    let value = a & b;
    AluOut { value, flags: flags_for(value, true, false) }
}

pub fn or8(a: u8, b: u8) -> (r: AluOut)
    ensures
        r == or_spec(a, b),
{
    let value = a | b;
    AluOut { value, flags: flags_for(value, false, false) }
}

pub fn xor8(a: u8, b: u8) -> (r: AluOut)
    ensures
        r == xor_spec(a, b),
{
    let value = a ^ b;
    AluOut { value, flags: flags_for(value, false, false) }
}

pub fn inc8(v: u8, carry: bool) -> (r: AluOut)
    ensures
        r == inc_spec(v, carry),
{
    let r = add8(v, 1, false);
    AluOut { value: r.value, flags: Flags { carry, ..r.flags } }
}

pub fn dec8(v: u8, carry: bool) -> (r: AluOut)
    ensures
        r == dec_spec(v, carry),
{
    let r = sub8(v, 1, false);
    AluOut { value: r.value, flags: Flags { carry, ..r.flags } }
}

pub fn daa8(a: u8, f: Flags) -> (r: AluOut)
    ensures
        r == daa_spec(a, f),
{
    let low_adjust = a % 16 > 9 || f.aux_carry;
    let high_adjust = a > 0x99 || f.carry;
    let low: u16 = if low_adjust {
        6
    } else {
        0
    };
    let high: u16 = if high_adjust {
        0x60
    } else {
        0
    };
    let value = ((a as u16 + low + high) % 256) as u8;
    let aux = (a % 16) as u16 + low > 15;
    AluOut { value, flags: flags_for(value, aux, high_adjust) }
}

pub fn rlc8(a: u8, f: Flags) -> (r: AluOut)
    ensures
        r == rlc_spec(a, f),
{
    let value = ((a as u16 * 2 + (a / 128) as u16) % 256) as u8;
    AluOut { value, flags: Flags { carry: a >= 128, ..f } }
}

pub fn rrc8(a: u8, f: Flags) -> (r: AluOut)
    ensures
        r == rrc_spec(a, f),
{
    let value = a / 2 + (a % 2) * 128;
    AluOut { value, flags: Flags { carry: a % 2 == 1, ..f } }
}

pub fn ral8(a: u8, f: Flags) -> (r: AluOut)
    ensures
        r == ral_spec(a, f),
{
    let cin: u16 = if f.carry {
        1
    } else {
        0
    };
    let value = ((a as u16 * 2 + cin) % 256) as u8;
    AluOut { value, flags: Flags { carry: a >= 128, ..f } }
}

pub fn rar8(a: u8, f: Flags) -> (r: AluOut)
    ensures
        r == rar_spec(a, f),
{
    let cin: u8 = if f.carry {
        1
    } else {
        0
    };
    let value = a / 2 + cin * 128;
    AluOut { value, flags: Flags { carry: a % 2 == 1, ..f } }
}

pub fn add16(x: u16, y: u16) -> (r: (u16, bool))
    ensures
        r == add16_spec(x, y),
{
    let sum: u32 = x as u32 + y as u32;
    ((sum % 65536) as u16, sum > 65535)
}

} // verus!
