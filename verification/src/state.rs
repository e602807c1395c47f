//! The mathematical model of the machine: registers, program counter,
//! stack pointer and memory as plain values, and how operands are read
//! from and written to them.

use vstd::prelude::*;
use crate::instructions::{ArithmeticTarget, DoubleTarget, Target};
use crate::registers::{low_byte, pair_value, FlagsRegister, Registers};

verus! {

/// Everything a program can observe of the CPU.
pub struct Machine {
    pub registers: Registers,
    pub pc: u16,
    pub sp: u16,
    /// One byte per address.
    pub memory: Seq<u8>,
}

/// An integer reduced to the 16-bit range, as address arithmetic wraps.
pub open spec fn wrap16(value: int) -> u16 {
    (value % 65536) as u16
}

/// How many immediate bytes an operand takes up behind the opcode.
pub open spec fn operand_width(target: Target) -> int {
    match target {
        Target::Const8() => 1,
        Target::Const16() => 2,
        Target::MemoryConst16() => 2,
        _ => 0,
    }
}

impl Machine {
    /// The memory holds one byte for each 16-bit address.
    pub open spec fn well_formed(self) -> bool {
        self.memory.len() == 0x10000
    }

    /// The value of an 8-bit register.
    pub open spec fn register(self, name: ArithmeticTarget) -> u8 {
        match name {
            ArithmeticTarget::A => self.registers.a,
            ArithmeticTarget::B => self.registers.b,
            ArithmeticTarget::C => self.registers.c,
            ArithmeticTarget::D => self.registers.d,
            ArithmeticTarget::E => self.registers.e,
            ArithmeticTarget::H => self.registers.h,
            ArithmeticTarget::L => self.registers.l,
        }
    }

    /// The machine with one 8-bit register replaced.
    pub open spec fn with_register(self, name: ArithmeticTarget, value: u8) -> Machine {
        Machine {
            registers: match name {
                ArithmeticTarget::A => Registers { a: value, ..self.registers },
                ArithmeticTarget::B => Registers { b: value, ..self.registers },
                ArithmeticTarget::C => Registers { c: value, ..self.registers },
                ArithmeticTarget::D => Registers { d: value, ..self.registers },
                ArithmeticTarget::E => Registers { e: value, ..self.registers },
                ArithmeticTarget::H => Registers { h: value, ..self.registers },
                ArithmeticTarget::L => Registers { l: value, ..self.registers },
            },
            ..self
        }
    }

    /// The value of a 16-bit register.
    pub open spec fn pair(self, name: DoubleTarget) -> u16 {
        match name {
            DoubleTarget::BC => self.registers.bc(),
            DoubleTarget::DE => self.registers.de(),
            DoubleTarget::HL => self.registers.hl(),
            DoubleTarget::SP => self.sp,
        }
    }

    /// The machine with one 16-bit register replaced.
    pub open spec fn with_pair(self, name: DoubleTarget, value: u16) -> Machine {
        match name {
            DoubleTarget::BC => Machine { registers: self.registers.with_bc(value), ..self },
            DoubleTarget::DE => Machine { registers: self.registers.with_de(value), ..self },
            DoubleTarget::HL => Machine { registers: self.registers.with_hl(value), ..self },
            DoubleTarget::SP => Machine { sp: value, ..self },
        }
    }

    /// The machine with the flags replaced.
    pub open spec fn with_flags(self, flags: FlagsRegister) -> Machine {
        Machine { registers: Registers { f: flags, ..self.registers }, ..self }
    }

    /// The byte stored at `address`.
    pub open spec fn byte(self, address: u16) -> u8 {
        self.memory[address as int]
    }

    /// The machine with the byte at `address` replaced.
    pub open spec fn with_byte(self, address: u16, value: u8) -> Machine {
        Machine { memory: self.memory.update(address as int, value), ..self }
    }

    /// The byte that follows the opcode at PC.
    pub open spec fn immediate8(self) -> u8 {
        self.byte(wrap16(self.pc + 1))
    }

    /// The 16-bit value that follows the opcode at PC, low byte first.
    pub open spec fn immediate16(self) -> u16 {
        pair_value(self.byte(wrap16(self.pc + 2)), self.byte(wrap16(self.pc + 1)))
    }

    /// The value an operand resolves to; a byte is widened with zeros.
    pub open spec fn operand(self, target: Target) -> u16 {
        match target {
            Target::Register(name) => self.register(name) as u16,
            Target::Register16(name) => self.pair(name),
            Target::MemoryR16(name) => self.byte(self.pair(name)) as u16,
            Target::MemoryR8(name) => self.byte(self.register(name) as u16) as u16,
            Target::Const8() => self.immediate8() as u16,
            Target::Const16() => self.immediate16(),
            Target::MemoryConst16() => self.byte(self.immediate16()) as u16,
        }
    }

    /// The low byte of the value an operand resolves to.
    pub open spec fn operand8(self, target: Target) -> u8 {
        low_byte(self.operand(target))
    }

    /// The address of the opcode that follows an instruction of one opcode
    /// byte and `width` immediate bytes.
    pub open spec fn pc_after(self, width: int) -> u16 {
        wrap16(self.pc + 1 + width)
    }
}

} // verus!
