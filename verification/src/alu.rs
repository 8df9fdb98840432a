//! The arithmetic and logic of the processor, on plain values: what each
//! operation computes and what it does to the flags.

use vstd::prelude::*;
use crate::register::FlagUpdate;

verus! {

/// `1` for a set carry, `0` for a clear one.
pub open spec fn carry_in(carry: bool) -> int {
    if carry {
        1
    } else {
        0
    }
}

/// The byte as a signed number from -128 to 127.
pub open spec fn signed(byte: u8) -> int {
    if byte < 128 {
        byte as int
    } else {
        byte - 256
    }
}

/// `base` moved by a signed byte, within the 16-bit address space.
pub open spec fn spec_offset(base: u16, byte: u8) -> u16 {
    ((base + signed(byte)) % 0x10000) as u16
}

pub fn offset(base: u16, byte: u8) -> (moved: u16)
    ensures
        moved == spec_offset(base, byte),
{
    if byte < 128 {
        base.wrapping_add(byte as u16)
    } else {
        base.wrapping_sub(256 - byte as u16)
    }
}

/// Addition with carry in: Z on a zero result, N clear, H on a carry out of
/// the low nibble, C on a carry out of the byte.
pub open spec fn spec_adc(a: u8, b: u8, carry: bool) -> (u8, FlagUpdate) {
    let sum = a + b + carry_in(carry);
    let value = (sum % 256) as u8;
    (value, FlagUpdate::spec_all(value == 0, false, a % 16 + b % 16 + carry_in(carry) > 15, sum > 255))
}

/// Subtraction with borrow in: Z on a zero result, N set, H on a borrow
/// into the low nibble, C on a borrow into the byte.
pub open spec fn spec_sbc(a: u8, b: u8, carry: bool) -> (u8, FlagUpdate) {
    let difference = a - b - carry_in(carry);
    let value = (difference % 256) as u8;
    (value, FlagUpdate::spec_all(value == 0, true, a % 16 < b % 16 + carry_in(carry), difference < 0))
}

/// Bitwise and: Z on a zero result, H set, N and C clear.
pub open spec fn spec_and(a: u8, b: u8) -> (u8, FlagUpdate) {
    (a & b, FlagUpdate::spec_all(a & b == 0, false, true, false))
}

/// Bitwise or: Z on a zero result, the other flags clear.
pub open spec fn spec_or(a: u8, b: u8) -> (u8, FlagUpdate) {
    (a | b, FlagUpdate::spec_all(a | b == 0, false, false, false))
}

/// Bitwise exclusive or: Z on a zero result, the other flags clear.
pub open spec fn spec_xor(a: u8, b: u8) -> (u8, FlagUpdate) {
    (a ^ b, FlagUpdate::spec_all(a ^ b == 0, false, false, false))
}

/// Increment: Z on a zero result, N clear, H when the low nibble of the
/// result is zero; C is left alone.
pub open spec fn spec_inc(a: u8) -> (u8, FlagUpdate) {
    let value = ((a + 1) % 256) as u8;
    (value, FlagUpdate { z: Some(value == 0), n: Some(false), h: Some(value % 16 == 0), c: None })
}

/// Decrement: Z on a zero result, N set, H when the low nibble of the
/// operand is zero; C is left alone.
pub open spec fn spec_dec(a: u8) -> (u8, FlagUpdate) {
    let value = ((a - 1) % 256) as u8;
    (value, FlagUpdate { z: Some(value == 0), n: Some(true), h: Some(a % 16 == 0), c: None })
}

/// The flags after a rotate or shift: Z on a zero result, N and H clear, C
/// the bit that left the byte.
pub open spec fn shifted(value: u8, out: bool) -> (u8, FlagUpdate) {
    (value, FlagUpdate::spec_all(value == 0, false, false, out))
}

/// Rotate left: bit 7 goes to bit 0 and to C.
pub open spec fn spec_rlc(a: u8) -> (u8, FlagUpdate) {
    shifted(((a % 128) * 2 + a / 128) as u8, a >= 128)
}

/// Rotate left through carry: C goes to bit 0, bit 7 to C.
pub open spec fn spec_rl(a: u8, carry: bool) -> (u8, FlagUpdate) {
    shifted(((a % 128) * 2 + carry_in(carry)) as u8, a >= 128)
}

/// Rotate right: bit 0 goes to bit 7 and to C.
pub open spec fn spec_rrc(a: u8) -> (u8, FlagUpdate) {
    shifted((a / 2 + (a % 2) * 128) as u8, a % 2 == 1)
}

/// Rotate right through carry: C goes to bit 7, bit 0 to C.
pub open spec fn spec_rr(a: u8, carry: bool) -> (u8, FlagUpdate) {
    shifted((a / 2 + carry_in(carry) * 128) as u8, a % 2 == 1)
}

/// Shift left: bit 0 becomes 0, bit 7 goes to C.
pub open spec fn spec_sla(a: u8) -> (u8, FlagUpdate) {
    shifted(((a % 128) * 2) as u8, a >= 128)
}

/// Arithmetic shift right: bit 7 stays, bit 0 goes to C.
pub open spec fn spec_sra(a: u8) -> (u8, FlagUpdate) {
    shifted((a / 2 + (a / 128) * 128) as u8, a % 2 == 1)
}

/// Logical shift right: bit 7 becomes 0, bit 0 goes to C.
pub open spec fn spec_srl(a: u8) -> (u8, FlagUpdate) {
    shifted((a / 2) as u8, a % 2 == 1)
}

/// Exchange of the two nibbles: Z on a zero result, the other flags clear.
pub open spec fn spec_swap(a: u8) -> (u8, FlagUpdate) {
    shifted(((a % 16) * 16 + a / 16) as u8, false)
}

/// A rotate of the accumulator by one of the four short instructions: as
/// the rotate, but Z is cleared whatever the result.
pub open spec fn short_form(rotated: (u8, FlagUpdate)) -> (u8, FlagUpdate) {
    (rotated.0, FlagUpdate { z: Some(false), ..rotated.1 })
}

/// Test of bit `n`: Z when the bit is 0, N clear, H set; C is left alone.
pub open spec fn spec_bit(n: u8, a: u8) -> FlagUpdate {
    FlagUpdate { z: Some((a >> n) & 1 != 1), n: Some(false), h: Some(true), c: None }
}

/// The byte with bit `n` cleared.
pub open spec fn spec_res(n: u8, a: u8) -> u8 {
    a & !(1u8 << n)
}

/// The byte with bit `n` set.
pub open spec fn spec_set(n: u8, a: u8) -> u8 {
    a | (1u8 << n)
}

/// The correction that decimal adjustment applies to the accumulator: 6
/// for the low digit, 0x60 for the high one. After a subtraction only the
/// two carries ask for it, after an addition also a digit above 9.
pub open spec fn daa_correction(a: u8, n: bool, h: bool, c: bool) -> int {
    (if h || (!n && a % 16 > 9) { 0x06int } else { 0int }) + (if c || (!n && a > 0x99) { 0x60int } else { 0int })
}

/// Decimal adjustment of the accumulator after an addition or a
/// subtraction of two packed decimal numbers: Z on a zero result, H clear,
/// C when the high digit was corrected; N is left alone.
pub open spec fn spec_daa(a: u8, n: bool, h: bool, c: bool) -> (u8, FlagUpdate) {
    let correction = daa_correction(a, n, h, c);
    let value = (if n { (a - correction) % 256 } else { (a + correction) % 256 }) as u8;
    (value, FlagUpdate { z: Some(value == 0), n: None, h: Some(false), c: Some(correction >= 0x60) })
}

/// 16-bit addition: N clear, H on a carry out of bit 11, C on a carry out
/// of bit 15; Z is left alone.
pub open spec fn spec_add16(a: u16, b: u16) -> (u16, FlagUpdate) {
    (
        ((a + b) % 0x10000) as u16,
        FlagUpdate { z: None, n: Some(false), h: Some(a % 0x1000 + b % 0x1000 > 0xFFF), c: Some(a + b > 0xFFFF) },
    )
}

/// The stack pointer moved by a signed byte: Z and N clear, H and C the
/// carries out of the low nibble and the low byte of the unsigned addition.
pub open spec fn spec_add_sp(sp: u16, byte: u8) -> (u16, FlagUpdate) {
    (spec_offset(sp, byte), FlagUpdate::spec_all(false, false, sp % 16 + byte % 16 > 15, sp % 256 + byte > 255))
}

proof fn lemma_nibbles(a: u8, b: u8)
    by (bit_vector)
    ensures
        a & 0xF == a % 16,
        b & 0xF == b % 16,
        a & 0x80 == (a / 128) * 128,
        a & 1 == a % 2,
        a >> 1 == a / 2,
        a << 1 == (a % 128) * 2,
        (a << 1) | 1 == (a % 128) * 2 + 1,
        (a >> 1) | 0x80 == a / 2 + 128,
        (a >> 1) | (a & 0x80) == a / 2 + (a / 128) * 128,
        ((a & 1) << 7) | (a >> 1) == a / 2 + (a % 2) * 128,
        ((a & 0x0F) << 4) | ((a & 0xF0) >> 4) == (a % 16) * 16 + a / 16,
{
}

proof fn lemma_words(a: u16, b: u16)
    by (bit_vector)
    ensures
        a & 0xFF == a % 256,
        a & 0xF == a % 16,
        a & 0xFFF == a % 0x1000,
        b & 0xFFF == b % 0x1000,
        b & 0xF == b % 16,
        b & 0xFF == b % 256,
{
}

proof fn lemma_wide(a: u32)
    by (bit_vector)
    ensures
        a & 0xFFFF == a % 0x10000,
        a & 0xFFF == a % 0x1000,
{
}

proof fn lemma_wrapped_sum(x: u16, y: u16, sum: u16)
    by (bit_vector)
    requires
        x < 256,
        y < 256,
        sum < 256,
        x + y <= 255 ==> sum == x + y,
        x + y > 255 ==> sum + 256 == x + y,
    ensures
        (sum % 16 < y % 16) == (x % 16 + y % 16 > 15),
        (sum < y) == (x + y > 255),
{
}

proof fn lemma_wrapped_difference(x: u16, y: u16, difference: u16)
    by (bit_vector)
    requires
        x < 256,
        y < 256,
        difference < 256,
        x >= y ==> difference + y == x,
        x < y ==> difference + y == x + 256,
    ensures
        (difference % 16 > x % 16) == (x % 16 < y % 16),
        (difference > x) == (x < y),
{
}

proof fn lemma_daa_bits()
    by (bit_vector)
    ensures
        0u8 | 0x06 == 0x06,
        0u8 | 0x60 == 0x60,
        0x06u8 | 0x60 == 0x66,
        0x06u8 | 0x06 == 0x06,
        0x60u8 | 0x60 == 0x60,
        0x60u8 | 0x06 == 0x66,
        0x66u8 | 0x06 == 0x66,
        0x66u8 | 0x60 == 0x66,
        0u8 & 0x60 == 0,
        0x06u8 & 0x60 == 0,
        0x60u8 & 0x60 != 0,
        0x66u8 & 0x60 != 0,
{
}

/// ADD: the sum of two bytes.
pub fn add8(a: u8, b: u8) -> (result: (u8, FlagUpdate))
    ensures
        result == spec_adc(a, b, false),
{
    let value = a.wrapping_add(b);
    proof {
        lemma_nibbles(value, b);
        lemma_wrapped_sum(a as u16, b as u16, value as u16);
    }
    (value, FlagUpdate::all(value == 0, false, (value & 0xF) < (b & 0xF), value < b))
}

/// ADC: the sum of two bytes and the carry.
pub fn adc8(a: u8, b: u8, carry: bool) -> (result: (u8, FlagUpdate))
    ensures
        result == spec_adc(a, b, carry),
{
    let a: u16 = a as u16;
    let value: u16 = b as u16;
    let carry: u16 = if carry { 1 } else { 0 };
    let result: u16 = a + value + carry;
    proof {
        lemma_words(a, value);
        lemma_words(result, value);
    }
    let h = (a & 0xF) + (value & 0xF) + carry > 0xF;
    ((result & 0xFF) as u8, FlagUpdate::all((result & 0xFF) == 0, false, h, result > 0xFF))
}

/// SUB: the difference of two bytes.
pub fn sub8(a: u8, b: u8) -> (result: (u8, FlagUpdate))
    ensures
        result == spec_sbc(a, b, false),
{
    let value = a.wrapping_sub(b);
    proof {
        lemma_nibbles(value, a);
        lemma_wrapped_difference(a as u16, b as u16, value as u16);
    }
    (value, FlagUpdate::all(a == b, true, (value & 0xF) > (a & 0xF), value > a))
}

/// CP: the flags of a subtraction, without its result.
pub fn cp8(a: u8, b: u8) -> (flags: FlagUpdate)
    ensures
        flags == spec_sbc(a, b, false).1,
{
    proof {
        lemma_nibbles(a, b);
    }
    FlagUpdate::all(a == b, true, (b & 0xF) > (a & 0xF), a < b)
}

/// SBC: the difference of two bytes, less the carry.
pub fn sbc8(a: u8, b: u8, carry: bool) -> (result: (u8, FlagUpdate))
    ensures
        result == spec_sbc(a, b, carry),
{
    let carry: u8 = if carry { 1 } else { 0 };
    let value = a.wrapping_sub(b).wrapping_sub(carry);
    proof {
        lemma_nibbles(a, b);
    }
    let h = (a & 0xF) < (b & 0xF) + carry;
    (value, FlagUpdate::all(value == 0, true, h, (a as u16) < (b as u16) + (carry as u16)))
}

pub fn and8(a: u8, b: u8) -> (result: (u8, FlagUpdate))
    ensures
        result == spec_and(a, b),
{
    let value = a & b;
    (value, FlagUpdate::all(value == 0, false, true, false))
}

pub fn or8(a: u8, b: u8) -> (result: (u8, FlagUpdate))
    ensures
        result == spec_or(a, b),
{
    let value = a | b;
    (value, FlagUpdate::all(value == 0, false, false, false))
}

pub fn xor8(a: u8, b: u8) -> (result: (u8, FlagUpdate))
    ensures
        result == spec_xor(a, b),
{
    let value = a ^ b;
    (value, FlagUpdate::all(value == 0, false, false, false))
}

pub fn inc8(a: u8) -> (result: (u8, FlagUpdate))
    ensures
        result == spec_inc(a),
{
    let value = a.wrapping_add(1);
    proof {
        lemma_nibbles(value, a);
    }
    (value, FlagUpdate { z: Some(value == 0), n: Some(false), h: Some((value & 0xF) < (a & 0xF)), c: None })
}

pub fn dec8(a: u8) -> (result: (u8, FlagUpdate))
    ensures
        result == spec_dec(a),
{
    let value = a.wrapping_sub(1);
    proof {
        lemma_nibbles(value, a);
    }
    (value, FlagUpdate { z: Some(value == 0), n: Some(true), h: Some((value & 0xF) > (a & 0xF)), c: None })
}

pub fn rlc8(a: u8) -> (result: (u8, FlagUpdate))
    ensures
        result == spec_rlc(a),
{
    proof {
        lemma_nibbles(a, a);
    }
    let c = a & 0x80 != 0;
    let shifted: u8 = a << 1;
    let value = if c { shifted | 1 } else { shifted };
    (value, FlagUpdate::all(value == 0, false, false, c))
}

pub fn rl8(a: u8, carry: bool) -> (result: (u8, FlagUpdate))
    ensures
        result == spec_rl(a, carry),
{
    proof {
        lemma_nibbles(a, a);
    }
    let value = if carry { (a << 1) | 1 } else { a << 1 };
    (value, FlagUpdate::all(value == 0, false, false, a & 0x80 != 0))
}

pub fn rrc8(a: u8) -> (result: (u8, FlagUpdate))
    ensures
        result == spec_rrc(a),
{
    proof {
        lemma_nibbles(a, a);
    }
    let c: u8 = a & 1;
    let value = (c << 7) | (a >> 1);
    (value, FlagUpdate::all(value == 0, false, false, c == 1))
}

pub fn rr8(a: u8, carry: bool) -> (result: (u8, FlagUpdate))
    ensures
        result == spec_rr(a, carry),
{
    proof {
        lemma_nibbles(a, a);
    }
    let value = if carry { (a >> 1) | 0x80 } else { a >> 1 };
    (value, FlagUpdate::all(value == 0, false, false, (a & 1) == 1))
}

pub fn sla8(a: u8) -> (result: (u8, FlagUpdate))
    ensures
        result == spec_sla(a),
{
    proof {
        lemma_nibbles(a, a);
    }
    let value = a << 1;
    (value, FlagUpdate::all(value == 0, false, false, a & 0x80 != 0))
}

pub fn sra8(a: u8) -> (result: (u8, FlagUpdate))
    ensures
        result == spec_sra(a),
{
    proof {
        lemma_nibbles(a, a);
    }
    let value = (a >> 1) | (a & 0x80);
    (value, FlagUpdate::all(value == 0, false, false, a & 1 == 1))
}

pub fn srl8(a: u8) -> (result: (u8, FlagUpdate))
    ensures
        result == spec_srl(a),
{
    proof {
        lemma_nibbles(a, a);
    }
    let value = a >> 1;
    (value, FlagUpdate::all(value == 0, false, false, a & 1 == 1))
}

pub fn swap8(a: u8) -> (result: (u8, FlagUpdate))
    ensures
        result == spec_swap(a),
{
    proof {
        lemma_nibbles(a, a);
    }
    let lo: u8 = (a & 0x0F) << 4;
    let hi: u8 = (a & 0xF0) >> 4;
    let value = lo | hi;
    (value, FlagUpdate::all(value == 0, false, false, false))
}

pub fn bit8(n: u8, a: u8) -> (flags: FlagUpdate)
    requires
        n < 8,
    ensures
        flags == spec_bit(n, a),
{
    FlagUpdate { z: Some((a >> n) & 1 != 1), n: Some(false), h: Some(true), c: None }
}

pub fn res8(n: u8, a: u8) -> (value: u8)
    requires
        n < 8,
    ensures
        value == spec_res(n, a),
{
    a & !(1u8 << n)
}

pub fn set8(n: u8, a: u8) -> (value: u8)
    requires
        n < 8,
    ensures
        value == spec_set(n, a),
{
    a | (1u8 << n)
}

pub fn daa8(a: u8, n: bool, h: bool, c: bool) -> (result: (u8, FlagUpdate))
    ensures
        result == spec_daa(a, n, h, c),
{
    proof {
        lemma_daa_bits();
        lemma_nibbles(a, a);
    }
    let mut correction: u8 = 0;
    if h {
        correction = correction | 0x06;
    }
    if c {
        correction = correction | 0x60;
    }
    let total = if n {
        a.wrapping_sub(correction)
    } else {
        if a & 0xF > 9 {
            correction = correction | 0x06;
        }
        if a > 0x99 {
            correction = correction | 0x60;
        }
        a.wrapping_add(correction)
    };
    assert(correction == daa_correction(a, n, h, c));
    (total, FlagUpdate { z: Some(total == 0), n: None, h: Some(false), c: Some(correction & 0x60 != 0) })
}

pub fn add16(a: u16, b: u16) -> (result: (u16, FlagUpdate))
    ensures
        result == spec_add16(a, b),
{
    let x: u32 = a as u32;
    let y: u32 = b as u32;
    let sum: u32 = x + y;
    proof {
        lemma_wide(x);
        lemma_wide(y);
        lemma_wide(sum);
    }
    let h = (x & 0xFFF) + (y & 0xFFF) > 0xFFF;
    ((sum & 0xFFFF) as u16, FlagUpdate { z: None, n: Some(false), h: Some(h), c: Some(sum > 0xFFFF) })
}

pub fn add_sp(sp: u16, byte: u8) -> (result: (u16, FlagUpdate))
    ensures
        result == spec_add_sp(sp, byte),
{
    let value = offset(sp, byte);
    let b: u16 = byte as u16;
    proof {
        lemma_words(sp, b);
    }
    let h = (sp & 0xF) + (b & 0xF) > 0xF;
    let c = (sp & 0xFF) + (b & 0xFF) > 0xFF;
    (value, FlagUpdate::all(false, false, h, c))
}

/// Addition, with or without carry in: the result is the sum modulo 256, Z
/// tells a zero result, N is clear, H tells a carry out of the low nibble
/// and C a carry out of the byte.
pub proof fn lemma_add_flags(a: u8, b: u8, carry: bool)
    ensures
        spec_adc(a, b, carry).0 == (a + b + carry_in(carry)) % 256,
        spec_adc(a, b, carry).1.z == Some(spec_adc(a, b, carry).0 == 0),
        spec_adc(a, b, carry).1.n == Some(false),
        spec_adc(a, b, carry).1.h == Some((a & 0x0F) + (b & 0x0F) + carry_in(carry) > 0x0F),
        spec_adc(a, b, carry).1.c == Some(a + b + carry_in(carry) > 0xFF),
{
    lemma_nibbles(a, b);
}

/// Subtraction and comparison, with or without borrow in: the result is
/// the difference modulo 256, Z tells a zero result, which without borrow
/// in means equal operands, N is set, H tells a borrow into the low nibble
/// and C a borrow into the byte.
pub proof fn lemma_sub_flags(a: u8, b: u8, carry: bool)
    ensures
        spec_sbc(a, b, carry).0 == (a - b - carry_in(carry)) % 256,
        spec_sbc(a, b, carry).1.z == Some(spec_sbc(a, b, carry).0 == 0),
        spec_sbc(a, b, false).1.z == Some(a == b),
        spec_sbc(a, b, carry).1.n == Some(true),
        spec_sbc(a, b, carry).1.h == Some((b & 0x0F) + carry_in(carry) > (a & 0x0F)),
        spec_sbc(a, b, false).1.h == Some((b & 0x0F) > (a & 0x0F)),
        spec_sbc(a, b, carry).1.c == Some(a < b + carry_in(carry)),
        spec_sbc(a, b, false).1.c == Some(a < b),
{
    lemma_nibbles(a, b);
}

/// The three bitwise operations: Z tells a zero result, N and C are clear,
/// and H is set by AND alone.
pub proof fn lemma_logic_flags(a: u8, b: u8)
    ensures
        spec_and(a, b).1 == FlagUpdate::spec_all(a & b == 0, false, true, false),
        spec_or(a, b).1 == FlagUpdate::spec_all(a | b == 0, false, false, false),
        spec_xor(a, b).1 == FlagUpdate::spec_all(a ^ b == 0, false, false, false),
{
}

/// Increment and decrement: Z tells a zero result, N is clear after an
/// increment and set after a decrement, H tells that the low nibble of the
/// result (increment) or of the operand (decrement) is zero, and C is left
/// alone.
pub proof fn lemma_inc_dec_flags(a: u8)
    ensures
        spec_inc(a).0 == (a + 1) % 256,
        spec_inc(a).1 == (FlagUpdate {
            z: Some(spec_inc(a).0 == 0),
            n: Some(false),
            h: Some(spec_inc(a).0 & 0x0F == 0),
            c: None,
        }),
        spec_dec(a).0 == (a - 1) % 256,
        spec_dec(a).1 == (FlagUpdate {
            z: Some(spec_dec(a).0 == 0),
            n: Some(true),
            h: Some(a & 0x0F == 0),
            c: None,
        }),
{
    lemma_nibbles(a, spec_inc(a).0);
}

/// 16-bit addition: the result is the sum modulo 65536, N is clear, H
/// tells a carry out of bit 11, C a carry out of bit 15, and Z is left
/// alone.
pub proof fn lemma_add16_flags(a: u16, b: u16)
    ensures
        spec_add16(a, b).0 == (a + b) % 0x10000,
        spec_add16(a, b).1 == (FlagUpdate {
            z: None,
            n: Some(false),
            h: Some((a & 0x0FFF) + (b & 0x0FFF) > 0x0FFF),
            c: Some(a + b > 0xFFFF),
        }),
{
    lemma_words(a, b);
}

/// The stack pointer moved by a signed byte: Z and N are clear, H and C
/// tell the carries out of the low nibble and of the low byte when the
/// byte is added as an unsigned number.
pub proof fn lemma_add_sp_flags(sp: u16, byte: u8)
    ensures
        spec_add_sp(sp, byte).1 == FlagUpdate::spec_all(
            false,
            false,
            (sp & 0x0F) + (byte & 0x0F) > 0x0F,
            (sp & 0xFF) + byte > 0xFF,
        ),
{
    lemma_words(sp, sp);
    lemma_nibbles(byte, byte);
}

/// The bit test: Z tells that the bit is 0, N is clear, H is set, and C is
/// left alone.
pub proof fn lemma_bit_flags(n: u8, a: u8)
    ensures
        spec_bit(n, a) == (FlagUpdate { z: Some((a >> n) & 1 == 0), n: Some(false), h: Some(true), c: None }),
{
    assert((a >> n) & 1 == 0 || (a >> n) & 1 == 1) by (bit_vector);
}

} // verus!
