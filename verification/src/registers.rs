//! The register file: seven 8-bit registers, the condition flags, the
//! interrupt-master-enable bit, and the 16-bit pairs BC, DE and HL.

use vstd::prelude::*;

verus! {

/// The four condition flags.
#[derive(Clone, Copy, Debug, PartialEq, Eq, Structural)]
pub struct FlagsRegister {
    pub zero: bool,
    pub subtract: bool,
    pub half_carry: bool,
    pub carry: bool,
}

/// The 8-bit registers, the flags and `ime`.
#[derive(Clone, Copy, Debug, PartialEq, Eq, Structural)]
pub struct Registers {
    pub a: u8,
    pub b: u8,
    pub c: u8,
    pub d: u8,
    pub e: u8,
    pub f: FlagsRegister,
    pub h: u8,
    pub l: u8,
    pub ime: bool,
}

/// The 16-bit value whose high byte is `high` and whose low byte is `low`.
pub open spec fn pair_value(high: u8, low: u8) -> u16 {
    (high as int * 256 + low as int) as u16
}

/// The high byte of a 16-bit value.
pub open spec fn high_byte(value: u16) -> u8 {
    (value as int / 256) as u8
}

/// The low byte of a 16-bit value.
pub open spec fn low_byte(value: u16) -> u8 {
    (value as int % 256) as u8
}

/// Joins two bytes into the 16-bit value `(high << 8) | low`.
pub fn join_bytes(high: u8, low: u8) -> (value: u16)
    ensures
        value == pair_value(high, low),
        value as int == high as int * 256 + low as int,
{
    let wide_high: u16 = high as u16;
    let wide_low: u16 = low as u16;
    assert((wide_high << 8) | wide_low == wide_high * 256 + wide_low) by (bit_vector)
        requires
            wide_high < 256,
            wide_low < 256,
    ;
    (wide_high << 8) | wide_low
}

/// Splits a 16-bit value into its high and low bytes.
pub fn split_bytes(value: u16) -> (bytes: (u8, u8))
    ensures
        bytes.0 == high_byte(value),
        bytes.1 == low_byte(value),
        bytes.0 as int == value as int / 256,
        bytes.1 as int == value as int % 256,
{
    assert((value >> 8) == value / 256 && (value & 0xFF) == value % 256) by (bit_vector);
    let high: u16 = value >> 8;
    let low: u16 = value & 0xFF;
    (high as u8, low as u8)
}

impl FlagsRegister {
    /// All four flags clear.
    pub fn new() -> (flags: FlagsRegister)
        ensures
            flags == (FlagsRegister { zero: false, subtract: false, half_carry: false, carry: false }),
    {
        FlagsRegister { zero: false, subtract: false, half_carry: false, carry: false }
    }
}

impl Registers {
    /// Every register zero, every flag and `ime` clear.
    pub open spec fn zeroed() -> Registers {
        Registers {
            a: 0,
            b: 0,
            c: 0,
            d: 0,
            e: 0,
            f: FlagsRegister { zero: false, subtract: false, half_carry: false, carry: false },
            h: 0,
            l: 0,
            ime: false,
        }
    }

    pub fn new() -> (registers: Registers)
        ensures
            registers == Registers::zeroed(),
    {
        Registers {
            a: 0,
            b: 0,
            c: 0,
            d: 0,
            e: 0,
            f: FlagsRegister::new(),
            h: 0,
            l: 0,
            ime: false,
        }
    }

    /// The pair BC: B is the high byte, C the low byte.
    pub open spec fn bc(self) -> u16 {
        pair_value(self.b, self.c)
    }

    /// The pair DE: D is the high byte, E the low byte.
    pub open spec fn de(self) -> u16 {
        pair_value(self.d, self.e)
    }

    /// The pair HL: H is the high byte, L the low byte.
    pub open spec fn hl(self) -> u16 {
        pair_value(self.h, self.l)
    }

    /// The register file with BC holding `value`.
    pub open spec fn with_bc(self, value: u16) -> Registers {
        Registers { b: high_byte(value), c: low_byte(value), ..self }
    }

    /// The register file with DE holding `value`.
    pub open spec fn with_de(self, value: u16) -> Registers {
        Registers { d: high_byte(value), e: low_byte(value), ..self }
    }

    /// The register file with HL holding `value`.
    pub open spec fn with_hl(self, value: u16) -> Registers {
        Registers { h: high_byte(value), l: low_byte(value), ..self }
    }

    pub fn get_bc(&self) -> (value: u16)
        ensures
            value == self.bc(),
    {
        join_bytes(self.b, self.c)
    }

    pub fn set_bc(&mut self, value: u16)
        ensures
            *final(self) == old(self).with_bc(value),
            final(self).bc() == value,
    {
        let (high, low) = split_bytes(value);
        self.b = high;
        self.c = low;
    }

    pub fn get_de(&self) -> (value: u16)
        ensures
            value == self.de(),
    {
        join_bytes(self.d, self.e)
    }

    pub fn set_de(&mut self, value: u16)
        ensures
            *final(self) == old(self).with_de(value),
            final(self).de() == value,
    {
        let (high, low) = split_bytes(value);
        self.d = high;
        self.e = low;
    }

    pub fn get_hl(&self) -> (value: u16)
        ensures
            value == self.hl(),
    {
        join_bytes(self.h, self.l)
    }

    pub fn set_hl(&mut self, value: u16)
        ensures
            *final(self) == old(self).with_hl(value),
            final(self).hl() == value,
    {
        let (high, low) = split_bytes(value);
        self.h = high;
        self.l = low;
    }
}

/// Joining the two halves of a 16-bit value gives the value back, and the
/// halves of a joined pair are the bytes it was joined from.
pub proof fn lemma_pair_split_join(value: u16, high: u8, low: u8)
    ensures
        pair_value(high_byte(value), low_byte(value)) == value,
        high_byte(pair_value(high, low)) == high,
        low_byte(pair_value(high, low)) == low,
{
}

/// Writing any 16-bit value to BC, DE or HL and reading the pair back
/// yields that value, and writing a pair's own value back changes nothing.
pub proof fn lemma_pair_round_trip(registers: Registers, value: u16)
    ensures
        registers.with_bc(value).bc() == value,
        registers.with_de(value).de() == value,
        registers.with_hl(value).hl() == value,
        registers.with_bc(registers.bc()) == registers,
        registers.with_de(registers.de()) == registers,
        registers.with_hl(registers.hl()) == registers,
{
    lemma_pair_split_join(value, 0, 0);
    lemma_pair_split_join(0, registers.b, registers.c);
    lemma_pair_split_join(0, registers.d, registers.e);
    lemma_pair_split_join(0, registers.h, registers.l);
}

} // verus!
