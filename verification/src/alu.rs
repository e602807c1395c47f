//! Arithmetic and logic on plain values: each operation returns its
//! result together with the flags it produces.

use vstd::prelude::*;
use crate::registers::FlagsRegister;

verus! {

/// 0 or 1, as a carry contributes to a sum.
pub open spec fn carry_value(carry: bool) -> int {
    if carry {
        1
    } else {
        0
    }
}

/// 8-bit addition with carry-in: the sum modulo 256; carry is set when
/// the sum exceeds 255, half-carry when the low nibbles and the carry-in
/// sum past 15.
pub open spec fn add8(left: u8, right: u8, carry_in: bool) -> (u8, FlagsRegister) {
    let sum = left as int + right as int + carry_value(carry_in);
    (
        (sum % 256) as u8,
        FlagsRegister {
            zero: sum % 256 == 0,
            subtract: false,
            half_carry: left as int % 16 + right as int % 16 + carry_value(carry_in) > 15,
            carry: sum > 255,
        },
    )
}

/// 8-bit subtraction with borrow-in: the difference modulo 256; carry is
/// set when `right` plus the borrow exceeds `left`, half-carry when the
/// same holds of the low nibbles.
pub open spec fn sub8(left: u8, right: u8, carry_in: bool) -> (u8, FlagsRegister) {
    let difference = left as int - right as int - carry_value(carry_in);
    (
        (difference % 256) as u8,
        FlagsRegister {
            zero: difference % 256 == 0,
            subtract: true,
            half_carry: (left as int % 16) < right as int % 16 + carry_value(carry_in),
            carry: (left as int) < right as int + carry_value(carry_in),
        },
    )
}

/// 16-bit addition: the sum modulo 65536; carry is set when the sum
/// exceeds 65535, half-carry when the low twelve bits sum past 4095.
/// The zero flag is kept.
pub open spec fn add16(left: u16, right: u16, flags: FlagsRegister) -> (u16, FlagsRegister) {
    let sum = left as int + right as int;
    (
        (sum % 65536) as u16,
        FlagsRegister {
            zero: flags.zero,
            subtract: false,
            half_carry: left as int % 4096 + right as int % 4096 > 4095,
            carry: sum > 65535,
        },
    )
}

/// Increment of a byte. The carry flag is kept.
pub open spec fn inc8(value: u8, flags: FlagsRegister) -> (u8, FlagsRegister) {
    let result = (value as int + 1) % 256;
    (
        result as u8,
        FlagsRegister {
            zero: result == 0,
            subtract: false,
            half_carry: value as int % 16 == 15,
            carry: flags.carry,
        },
    )
}

/// Decrement of a byte. The carry flag is kept.
pub open spec fn dec8(value: u8, flags: FlagsRegister) -> (u8, FlagsRegister) {
    let result = (value as int - 1) % 256;
    (
        result as u8,
        FlagsRegister {
            zero: result == 0,
            subtract: true,
            half_carry: value as int % 16 == 15,
            carry: flags.carry,
        },
    )
}

/// The flags after a bitwise operation with result `result`.
pub open spec fn logic_flags(result: u8, half_carry: bool) -> FlagsRegister {
    FlagsRegister { zero: result == 0, subtract: false, half_carry, carry: false }
}

/// Bitwise AND: half-carry is always set, carry always clear.
pub open spec fn and8(left: u8, right: u8) -> (u8, FlagsRegister) {
    (left & right, logic_flags(left & right, true))
}

/// Bitwise OR: half-carry and carry are always clear.
pub open spec fn or8(left: u8, right: u8) -> (u8, FlagsRegister) {
    (left | right, logic_flags(left | right, false))
}

/// Bitwise XOR: half-carry and carry are always clear.
pub open spec fn xor8(left: u8, right: u8) -> (u8, FlagsRegister) {
    (left ^ right, logic_flags(left ^ right, false))
}

/// The rotations and shifts of one byte.
#[derive(Clone, Copy, Debug, PartialEq, Eq, Structural)]
pub enum ShiftKind {
    /// Rotate left through the carry flag.
    RotateLeft,
    /// Rotate right through the carry flag.
    RotateRight,
    /// Rotate left; bit 7 goes to bit 0.
    RotateLeftCircular,
    /// Rotate right; bit 0 goes to bit 7.
    RotateRightCircular,
    /// Shift left; bit 0 becomes 0.
    ShiftLeft,
    /// Shift right; bit 7 keeps its value.
    ShiftRightArithmetic,
    /// Shift right; bit 7 becomes 0.
    ShiftRightLogical,
}

/// Whether the shift moves bits towards bit 7.
pub open spec fn shifts_left(kind: ShiftKind) -> bool {
    kind == ShiftKind::RotateLeft || kind == ShiftKind::RotateLeftCircular || kind
        == ShiftKind::ShiftLeft
}

/// The byte after a rotation or shift by one bit.
pub open spec fn shifted_value(kind: ShiftKind, value: u8, carry_in: bool) -> u8 {
    let v = value as int;
    (match kind {
        ShiftKind::RotateLeft => (v * 2) % 256 + carry_value(carry_in),
        ShiftKind::RotateRight => v / 2 + 128 * carry_value(carry_in),
        ShiftKind::RotateLeftCircular => (v * 2) % 256 + v / 128,
        ShiftKind::RotateRightCircular => v / 2 + 128 * (v % 2),
        ShiftKind::ShiftLeft => (v * 2) % 256,
        ShiftKind::ShiftRightArithmetic => v / 2 + 128 * (v / 128),
        ShiftKind::ShiftRightLogical => v / 2,
    }) as u8
}

/// The bit that a rotation or shift moves out: bit 7 when moving left,
/// bit 0 when moving right.
pub open spec fn shifted_out(kind: ShiftKind, value: u8) -> bool {
    if shifts_left(kind) {
        value >= 128
    } else {
        value % 2 == 1
    }
}

/// A rotation or shift by one bit: carry is the bit moved out, subtract
/// and half-carry are clear, and zero reflects the result only where
/// `zero_from_result` is set (it is clear otherwise).
pub open spec fn shift8(kind: ShiftKind, value: u8, carry_in: bool, zero_from_result: bool) -> (
    u8,
    FlagsRegister,
) {
    let result = shifted_value(kind, value, carry_in);
    (
        result,
        FlagsRegister {
            zero: zero_from_result && result == 0,
            subtract: false,
            half_carry: false,
            carry: shifted_out(kind, value),
        },
    )
}

/// Exchange of the two nibbles of a byte.
pub open spec fn swap8(value: u8) -> (u8, FlagsRegister) {
    let result = ((value as int % 16) * 16 + value as int / 16) as u8;
    (result, logic_flags(result, false))
}

/// Whether bit `index` of `value` is set; a byte has no bit above 7.
pub open spec fn bit_is_set(value: u8, index: u8) -> bool {
    index < 8 && (value >> index) & 1 == 1
}

/// `value` with bit `index` set; a byte has no bit above 7.
pub open spec fn with_bit_set(value: u8, index: u8) -> u8 {
    if index < 8 {
        value | (1u8 << index)
    } else {
        value
    }
}

/// The amount that decimal adjustment adds to (after an addition) or
/// takes from (after a subtraction) the accumulator.
pub open spec fn daa_adjustment(value: u8, flags: FlagsRegister) -> int {
    if flags.subtract {
        (if flags.half_carry { 0x06int } else { 0 }) + (if flags.carry { 0x60int } else { 0 })
    } else {
        (if flags.half_carry || value as int % 16 > 9 { 0x06int } else { 0 })
            + (if flags.carry || value > 0x99 { 0x60int } else { 0 })
    }
}

/// Decimal adjustment of the accumulator after an addition or a
/// subtraction of binary-coded decimals. Half-carry is cleared; carry is
/// set where an addition needed the high correction and kept otherwise.
pub open spec fn daa8(value: u8, flags: FlagsRegister) -> (u8, FlagsRegister) {
    let adjustment = daa_adjustment(value, flags);
    let result = if flags.subtract {
        (value as int - adjustment) % 256
    } else {
        (value as int + adjustment) % 256
    };
    (
        result as u8,
        FlagsRegister {
            zero: result == 0,
            subtract: flags.subtract,
            half_carry: false,
            carry: flags.carry || (!flags.subtract && value > 0x99),
        },
    )
}

/// Whether a byte holds two decimal digits, one in each nibble.
pub open spec fn is_decimal(value: u8) -> bool {
    value as int % 16 <= 9 && value as int / 16 <= 9
}

/// The number from 0 to 99 that a byte of two decimal digits stands for.
pub open spec fn decimal_value(value: u8) -> int {
    (value as int / 16) * 10 + value as int % 16
}

/// Decimal adjustment after adding two bytes of decimal digits gives the
/// digits of their decimal sum; the carry flag tells that the sum passed
/// 99.
pub proof fn lemma_decimal_addition(left: u8, right: u8, carry_in: bool)
    requires
        is_decimal(left),
        is_decimal(right),
    ensures
        ({
            let (sum, flags) = add8(left, right, carry_in);
            let (digits, adjusted) = daa8(sum, flags);
            &&& is_decimal(digits)
            &&& decimal_value(digits) + 100 * carry_value(adjusted.carry) == decimal_value(left)
                + decimal_value(right) + carry_value(carry_in)
            &&& adjusted.zero == (digits == 0)
            &&& !adjusted.half_carry
        }),
{
    let c = carry_value(carry_in);
    let low = left as int % 16 + right as int % 16 + c;
    let high = left as int / 16 + right as int / 16;
    let raw = left as int + right as int + c;
    assert(raw == 16 * high + low);
    let (sum, flags) = add8(left, right, carry_in);
    let s = sum as int;
    assert(s == if raw > 255 { raw - 256 } else { raw });
    let sixteens = if low > 15 { high + 1 } else { high };
    assert(raw / 16 == sixteens && raw % 16 == if low > 15 { low - 16 } else { low });
    assert(s % 16 == raw % 16);
    assert(s / 16 == if raw > 255 { sixteens - 16 } else { sixteens });
    let tens = if low > 9 { high + 1 } else { high };
    assert((flags.half_carry || s % 16 > 9) == (low > 9));
    assert((flags.carry || s > 0x99) == (tens > 9));
    let ones_digit = if low > 9 { low - 10 } else { low };
    let tens_digit = if tens > 9 { tens - 10 } else { tens };
    let adjusted = s + daa_adjustment(sum, flags);
    assert(adjusted % 256 == 16 * tens_digit + ones_digit);
    let digits = daa8(sum, flags).0;
    assert(digits as int == 16 * tens_digit + ones_digit);
    assert(digits as int % 16 == ones_digit && digits as int / 16 == tens_digit);
}

/// Decimal adjustment after subtracting one byte of decimal digits from
/// another gives the digits of their decimal difference; the carry flag
/// tells that the difference fell below 0.
pub proof fn lemma_decimal_subtraction(left: u8, right: u8, carry_in: bool)
    requires
        is_decimal(left),
        is_decimal(right),
    ensures
        ({
            let (difference, flags) = sub8(left, right, carry_in);
            let (digits, adjusted) = daa8(difference, flags);
            &&& is_decimal(digits)
            &&& decimal_value(digits) - 100 * carry_value(adjusted.carry) == decimal_value(left)
                - decimal_value(right) - carry_value(carry_in)
            &&& adjusted.zero == (digits == 0)
            &&& !adjusted.half_carry
        }),
{
    let c = carry_value(carry_in);
    let low = left as int % 16 - right as int % 16 - c;
    let high = left as int / 16 - right as int / 16;
    let raw = left as int - right as int - c;
    assert(raw == 16 * high + low);
    let (difference, flags) = sub8(left, right, carry_in);
    let d = difference as int;
    assert(d == if raw < 0 { raw + 256 } else { raw });
    let tens = if low < 0 { high - 1 } else { high };
    assert(flags.half_carry == (low < 0));
    assert(flags.carry == (tens < 0));
    let ones_digit = if low < 0 { low + 10 } else { low };
    let tens_digit = if tens < 0 { tens + 10 } else { tens };
    let adjusted = d - daa_adjustment(difference, flags);
    assert(adjusted == 16 * tens_digit + ones_digit);
    let digits = daa8(difference, flags).0;
    assert(digits as int == 16 * tens_digit + ones_digit);
    assert(digits as int % 16 == ones_digit && digits as int / 16 == tens_digit);
}

/// The low four bits of a byte.
fn low_nibble(value: u8) -> (nibble: u8)
    ensures
        nibble as int == value as int % 16,
{
    assert(value & 0xF == value % 16) by (bit_vector);
    value & 0xF
}

/// Adds two bytes and a carry-in.
pub fn add_bytes(left: u8, right: u8, carry_in: bool) -> (out: (u8, FlagsRegister))
    ensures
        out == add8(left, right, carry_in),
{
    let carry: u16 = if carry_in { 1 } else { 0 };
    let sum: u16 = left as u16 + right as u16 + carry;
    let did_overflow = sum > 0xFF;
    let result: u8 = if did_overflow { (sum - 0x100) as u8 } else { sum as u8 };
    let half_carry = low_nibble(left) as u16 + low_nibble(right) as u16 + carry > 0xF;
    (result, FlagsRegister { zero: result == 0, subtract: false, half_carry, carry: did_overflow })
}

/// Subtracts a byte and a borrow-in from a byte.
pub fn subtract_bytes(left: u8, right: u8, carry_in: bool) -> (out: (u8, FlagsRegister))
    ensures
        out == sub8(left, right, carry_in),
{
    let carry: u16 = if carry_in { 1 } else { 0 };
    let taken: u16 = right as u16 + carry;
    let did_borrow = (left as u16) < taken;
    let result: u8 = if did_borrow {
        (left as u16 + 0x100 - taken) as u8
    } else {
        (left as u16 - taken) as u8
    };
    let half_carry = (low_nibble(left) as u16) < low_nibble(right) as u16 + carry;
    (result, FlagsRegister { zero: result == 0, subtract: true, half_carry, carry: did_borrow })
}

/// Adds two 16-bit values; the zero flag of `flags` is kept.
pub fn add_words(left: u16, right: u16, flags: FlagsRegister) -> (out: (u16, FlagsRegister))
    ensures
        out == add16(left, right, flags),
{
    let sum: u32 = left as u32 + right as u32;
    let did_overflow = sum > 0xFFFF;
    let result: u16 = if did_overflow { (sum - 0x10000) as u16 } else { sum as u16 };
    assert(left & 0xFFF == left % 4096 && right & 0xFFF == right % 4096) by (bit_vector);
    let half_carry = (left & 0xFFF) as u32 + (right & 0xFFF) as u32 > 0xFFF;
    (
        result,
        FlagsRegister { zero: flags.zero, subtract: false, half_carry, carry: did_overflow },
    )
}

/// Adds one to a byte; the carry flag of `flags` is kept.
pub fn increment_byte(value: u8, flags: FlagsRegister) -> (out: (u8, FlagsRegister))
    ensures
        out == inc8(value, flags),
{
    let result: u8 = if value == 0xFF { 0 } else { value + 1 };
    (
        result,
        FlagsRegister {
            zero: result == 0,
            subtract: false,
            half_carry: low_nibble(value) == 0xF,
            carry: flags.carry,
        },
    )
}

/// Takes one from a byte; the carry flag of `flags` is kept.
pub fn decrement_byte(value: u8, flags: FlagsRegister) -> (out: (u8, FlagsRegister))
    ensures
        out == dec8(value, flags),
{
    let result: u8 = if value == 0 { 0xFF } else { value - 1 };
    (
        result,
        FlagsRegister {
            zero: result == 0,
            subtract: true,
            half_carry: low_nibble(value) == 0xF,
            carry: flags.carry,
        },
    )
}

/// Bitwise AND of two bytes.
pub fn and_bytes(left: u8, right: u8) -> (out: (u8, FlagsRegister))
    ensures
        out == and8(left, right),
{
    let result: u8 = left & right;
    (result, FlagsRegister { zero: result == 0, subtract: false, half_carry: true, carry: false })
}

/// Bitwise OR of two bytes.
pub fn or_bytes(left: u8, right: u8) -> (out: (u8, FlagsRegister))
    ensures
        out == or8(left, right),
{
    let result: u8 = left | right;
    (result, FlagsRegister { zero: result == 0, subtract: false, half_carry: false, carry: false })
}

/// Bitwise XOR of two bytes.
pub fn xor_bytes(left: u8, right: u8) -> (out: (u8, FlagsRegister))
    ensures
        out == xor8(left, right),
{
    let result: u8 = left ^ right;
    (result, FlagsRegister { zero: result == 0, subtract: false, half_carry: false, carry: false })
}

/// Rotates or shifts a byte by one bit.
pub fn shift_byte(kind: ShiftKind, value: u8, carry_in: bool, zero_from_result: bool) -> (out: (
    u8,
    FlagsRegister,
))
    ensures
        out == shift8(kind, value, carry_in, zero_from_result),
{
    let low_in: u8 = if carry_in { 0x01 } else { 0x00 };
    let high_in: u8 = if carry_in { 0x80 } else { 0x00 };
    assert((value << 1) == (value * 2) % 256 && (value >> 1) == value / 2 && (value >> 7) == value
        / 128 && (value & 0x80 == 0x80) == (value >= 128) && (value & 0x01 == 0x01) == (value % 2
        == 1) && (value & 0x80) == 128 * (value / 128) && (value << 7) == 128 * (value % 2))
        by (bit_vector);
    assert(((value << 1) | low_in) == (value << 1) + low_in) by (bit_vector)
        requires
            low_in <= 1,
    ;
    assert(((value >> 1) | high_in) == (value >> 1) + high_in) by (bit_vector)
        requires
            high_in == 0x80 || high_in == 0,
    ;
    assert(((value << 1) | (value >> 7)) == (value << 1) + (value >> 7) && ((value >> 1) | (value
        << 7)) == (value >> 1) + (value << 7) && ((value >> 1) | (value & 0x80)) == (value >> 1)
        + (value & 0x80)) by (bit_vector);
    let (result, carry): (u8, bool) = match kind {
        ShiftKind::RotateLeft => ((value << 1) | low_in, value & 0x80 == 0x80),
        ShiftKind::RotateRight => ((value >> 1) | high_in, value & 0x01 == 0x01),
        ShiftKind::RotateLeftCircular => ((value << 1) | (value >> 7), value & 0x80 == 0x80),
        ShiftKind::RotateRightCircular => ((value >> 1) | (value << 7), value & 0x01 == 0x01),
        ShiftKind::ShiftLeft => (value << 1, value & 0x80 == 0x80),
        ShiftKind::ShiftRightArithmetic => ((value >> 1) | (value & 0x80), value & 0x01 == 0x01),
        ShiftKind::ShiftRightLogical => (value >> 1, value & 0x01 == 0x01),
    };
    (
        result,
        FlagsRegister {
            zero: zero_from_result && result == 0,
            subtract: false,
            half_carry: false,
            carry,
        },
    )
}

/// Exchanges the two nibbles of a byte.
pub fn swap_nibbles(value: u8) -> (out: (u8, FlagsRegister))
    ensures
        out == swap8(value),
{
    assert(((value << 4) | (value >> 4)) == (value % 16) * 16 + value / 16) by (bit_vector);
    let result: u8 = (value << 4) | (value >> 4);
    (result, FlagsRegister { zero: result == 0, subtract: false, half_carry: false, carry: false })
}

/// Tells whether bit `index` of `value` is set.
pub fn test_bit(value: u8, index: u8) -> (set: bool)
    ensures
        set == bit_is_set(value, index),
{
    index < 8 && (value >> index) & 1 == 1
}

/// Sets bit `index` of `value`.
pub fn set_bit(value: u8, index: u8) -> (result: u8)
    ensures
        result == with_bit_set(value, index),
{
    if index < 8 {
        value | (1u8 << index)
    } else {
        value
    }
}

/// Adjusts the accumulator to binary-coded decimal after an addition or
/// a subtraction, as the subtract flag tells.
pub fn decimal_adjust(value: u8, flags: FlagsRegister) -> (out: (u8, FlagsRegister))
    ensures
        out == daa8(value, flags),
{
    let mut adjust: u8 = 0;
    let mut carry = flags.carry;
    let result: u8;
    if !flags.subtract {
        if flags.half_carry || low_nibble(value) > 9 {
            adjust = adjust + 0x06;
        }
        if flags.carry || value > 0x99 {
            adjust = adjust + 0x60;
            carry = true;
        }
        let sum: u16 = value as u16 + adjust as u16;
        result = if sum > 0xFF { (sum - 0x100) as u8 } else { sum as u8 };
    } else {
        if flags.half_carry {
            adjust = adjust + 0x06;
        }
        if flags.carry {
            adjust = adjust + 0x60;
        }
        result = if value < adjust { (value as u16 + 0x100 - adjust as u16) as u8 } else { value - adjust };
    }
    (
        result,
        FlagsRegister { zero: result == 0, subtract: flags.subtract, half_carry: false, carry },
    )
}

} // verus!
