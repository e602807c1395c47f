//! What each instruction does to the machine, stated over the
//! mathematical model: the machine after the instruction and the address
//! of the next opcode, or the condition that stops the CPU.

use vstd::prelude::*;
use crate::alu::{
    add16, add8, and8, bit_is_set, daa8, dec8, inc8, or8, shift8, sub8, swap8, with_bit_set, xor8,
    ShiftKind,
};
use crate::error::CpuError;
use crate::instructions::{
    decode, ArithmeticTarget, Instruction, JumpCondition, Target, PREFIX_OPCODE,
};
use crate::registers::{FlagsRegister, Registers};
use crate::state::{operand_width, wrap16, Machine};

verus! {

/// The machine after an instruction and the address of the next opcode,
/// or the reason why the instruction was not executed.
pub type Outcome = Result<(Machine, u16), CpuError>;

/// The outcome of an instruction of `width` immediate bytes that leaves
/// the machine as `after`.
pub open spec fn advance(before: Machine, after: Machine, width: int) -> Outcome {
    Ok((after, before.pc_after(width)))
}

/// The outcome of an instruction given an operand it does not take.
pub open spec fn illegal(instruction: Instruction, target: Target) -> Outcome {
    Err(CpuError::IllegalOperand { instruction, target })
}

/// Sources that ADD takes: a register, a register pair, the byte a pair
/// points at, an immediate byte.
pub open spec fn add_takes_source(source: Target) -> bool {
    source is Register || source is Const8 || source is Register16 || source is MemoryR16
}

/// ADD: adds the source to an 8-bit register (all four flags) or to a
/// 16-bit register (zero is kept). The source is judged before the
/// destination.
pub open spec fn add_effect(m: Machine, target: Target, source: Target) -> Outcome {
    let instruction = Instruction::ADD(target, source);
    if !add_takes_source(source) {
        illegal(instruction, source)
    } else {
        match target {
            Target::Register(name) => {
                let (result, flags) = add8(m.register(name), m.operand8(source), false);
                advance(m, m.with_register(name, result).with_flags(flags), operand_width(source))
            },
            Target::Register16(name) => {
                let (result, flags) = add16(m.pair(name), m.operand(source), m.registers.f);
                advance(m, m.with_pair(name, result).with_flags(flags), operand_width(source))
            },
            _ => illegal(instruction, target),
        }
    }
}

/// ADC: adds the operand and the carry flag to A.
pub open spec fn adc_effect(m: Machine, target: Target) -> Outcome {
    if target is Const8 || target is Register || target is MemoryR16 {
        let (result, flags) = add8(m.registers.a, m.operand8(target), m.registers.f.carry);
        advance(
            m,
            m.with_register(ArithmeticTarget::A, result).with_flags(flags),
            operand_width(target),
        )
    } else {
        illegal(Instruction::ADC(target), target)
    }
}

/// SUB, SBC and CP: subtracts a register, and for SBC the carry flag,
/// from A; CP sets the flags and leaves A as it is.
pub open spec fn subtract_effect(
    m: Machine,
    name: ArithmeticTarget,
    with_carry: bool,
    store: bool,
) -> Outcome {
    let (result, flags) = sub8(m.registers.a, m.register(name), with_carry && m.registers.f.carry);
    let stored = if store {
        m.with_register(ArithmeticTarget::A, result)
    } else {
        m
    };
    advance(m, stored.with_flags(flags), 0)
}

/// AND: the bitwise AND of A and the source, stored in the destination
/// register. The source is judged before the destination.
pub open spec fn and_effect(m: Machine, target: Target, source: Target) -> Outcome {
    let instruction = Instruction::AND(target, source);
    if !(source is Register || source is MemoryR16) {
        illegal(instruction, source)
    } else {
        match target {
            Target::Register(name) => {
                let (result, flags) = and8(m.registers.a, m.operand8(source));
                advance(m, m.with_register(name, result).with_flags(flags), 0)
            },
            _ => illegal(instruction, target),
        }
    }
}

/// OR and XOR of A with a register, stored in A.
pub open spec fn logic_effect(m: Machine, name: ArithmeticTarget, exclusive: bool) -> Outcome {
    let (result, flags) = if exclusive {
        xor8(m.registers.a, m.register(name))
    } else {
        or8(m.registers.a, m.register(name))
    };
    advance(m, m.with_register(ArithmeticTarget::A, result).with_flags(flags), 0)
}

/// INC and DEC. On an 8-bit register the carry flag is kept; on a 16-bit
/// register no flag changes; on a byte in memory the carry flag tells
/// whether the byte wrapped around.
pub open spec fn step_value_effect(m: Machine, target: Target, down: bool) -> Outcome {
    match target {
        Target::Register(name) => {
            let (result, flags) = if down {
                dec8(m.register(name), m.registers.f)
            } else {
                inc8(m.register(name), m.registers.f)
            };
            advance(m, m.with_register(name, result).with_flags(flags), 0)
        },
        Target::Register16(name) => {
            let result = wrap16(m.pair(name) + if down { -1int } else { 1int });
            advance(m, m.with_pair(name, result), 0)
        },
        Target::MemoryR16(name) => {
            let address = m.pair(name);
            let value = m.byte(address);
            let (result, flags) = if down {
                dec8(value, m.registers.f)
            } else {
                inc8(value, m.registers.f)
            };
            let wrapped = if down {
                value == 0
            } else {
                value == 255
            };
            advance(
                m,
                m.with_byte(address, result).with_flags(FlagsRegister { carry: wrapped, ..flags }),
                0,
            )
        },
        _ => illegal(
            if down {
                Instruction::DEC(target)
            } else {
                Instruction::INC(target)
            },
            target,
        ),
    }
}

/// CCF and SCF: carry is inverted or set, subtract and half-carry are
/// cleared, zero is kept.
pub open spec fn carry_flag_effect(m: Machine, invert: bool) -> Outcome {
    let flags = FlagsRegister {
        zero: m.registers.f.zero,
        subtract: false,
        half_carry: false,
        carry: !(invert && m.registers.f.carry),
    };
    advance(m, m.with_flags(flags), 0)
}

/// A rotation or shift of a register; the accumulator forms (RLA, RRA,
/// RLCA, RRCA) clear the zero flag, the others set it from the result.
pub open spec fn shift_effect(
    m: Machine,
    kind: ShiftKind,
    name: ArithmeticTarget,
    zero_from_result: bool,
) -> Outcome {
    let (result, flags) = shift8(kind, m.register(name), m.registers.f.carry, zero_from_result);
    advance(m, m.with_register(name, result).with_flags(flags), 0)
}

/// SWAP: exchanges the nibbles of a register.
pub open spec fn swap_effect(m: Machine, name: ArithmeticTarget) -> Outcome {
    let (result, flags) = swap8(m.register(name));
    advance(m, m.with_register(name, result).with_flags(flags), 0)
}

/// CPL: every bit of A is inverted; subtract and half-carry are set.
pub open spec fn complement_effect(m: Machine) -> Outcome {
    let flags = FlagsRegister { subtract: true, half_carry: true, ..m.registers.f };
    advance(
        m,
        m.with_register(ArithmeticTarget::A, (255 - m.registers.a) as u8).with_flags(flags),
        0,
    )
}

/// The flags after a bit test: zero tells that the bit is clear, subtract
/// is cleared, half-carry set, carry kept.
pub open spec fn bit_test_flags(flags: FlagsRegister, set: bool) -> FlagsRegister {
    FlagsRegister { zero: !set, subtract: false, half_carry: true, carry: flags.carry }
}

/// BIT: tests one bit of a register or of the byte a pair points at.
pub open spec fn bit_effect(m: Machine, index: u8, target: Target) -> Outcome {
    if target is Register || target is MemoryR16 {
        advance(
            m,
            m.with_flags(bit_test_flags(m.registers.f, bit_is_set(m.operand8(target), index))),
            0,
        )
    } else {
        illegal(Instruction::BIT(index, target), target)
    }
}

/// RESET: sets the flags as a test of bit 0 of the register does.
pub open spec fn reset_effect(m: Machine, name: ArithmeticTarget) -> Outcome {
    advance(m, m.with_flags(bit_test_flags(m.registers.f, bit_is_set(m.register(name), 0))), 0)
}

/// SET: sets one bit of a register; no flag changes.
pub open spec fn set_effect(m: Machine, index: u8, name: ArithmeticTarget) -> Outcome {
    advance(m, m.with_register(name, with_bit_set(m.register(name), index)), 0)
}

/// LD: copies the source's value to the destination; an 8-bit destination
/// takes the low byte. No flag changes.
pub open spec fn load_effect(m: Machine, target: Target, source: Target) -> Outcome {
    let value = m.operand(source);
    let byte = m.operand8(source);
    let width = operand_width(source);
    match target {
        Target::Register(name) => advance(m, m.with_register(name, byte), width),
        Target::Register16(name) => advance(m, m.with_pair(name, value), width),
        Target::MemoryR8(name) => advance(m, m.with_byte(m.register(name) as u16, byte), width),
        Target::MemoryR16(name) => advance(m, m.with_byte(m.pair(name), byte), width),
        _ => illegal(Instruction::LD(target, source), target),
    }
}

/// DAA: decimal adjustment of A.
pub open spec fn decimal_adjust_effect(m: Machine) -> Outcome {
    let (result, flags) = daa8(m.registers.a, m.registers.f);
    advance(m, m.with_register(ArithmeticTarget::A, result).with_flags(flags), 0)
}

/// DI and EI: clears or sets the interrupt-master-enable bit.
pub open spec fn interrupt_enable_effect(m: Machine, enabled: bool) -> Outcome {
    advance(m, Machine { registers: Registers { ime: enabled, ..m.registers }, ..m }, 0)
}

/// Whether a jump condition holds of the flags.
pub open spec fn condition_holds(condition: JumpCondition, flags: FlagsRegister) -> bool {
    match condition {
        JumpCondition::Always => true,
        JumpCondition::Zero => flags.zero,
        JumpCondition::NotZero => !flags.zero,
        JumpCondition::Carry => flags.carry,
        JumpCondition::NotCarry => !flags.carry,
    }
}

/// Where a jump goes when taken: to `address`, or, where `address` is 0,
/// to the 16-bit immediate that follows the opcode.
pub open spec fn jump_destination(m: Machine, address: u16) -> u16 {
    if address != 0 {
        address
    } else {
        m.immediate16()
    }
}

/// JP: a taken jump sets PC to the destination, which is also the next
/// opcode's address; one not taken leaves PC and continues behind the
/// three bytes of the instruction.
pub open spec fn jump_effect(m: Machine, condition: JumpCondition, address: u16) -> Outcome {
    if condition_holds(condition, m.registers.f) {
        let destination = jump_destination(m, address);
        Ok((Machine { pc: destination, ..m }, destination))
    } else {
        advance(m, m, 2)
    }
}

/// The effect of one decoded instruction on the machine.
pub open spec fn effect(m: Machine, instruction: Instruction) -> Outcome {
    match instruction {
        Instruction::ADD(target, source) => add_effect(m, target, source),
        Instruction::ADC(target) => adc_effect(m, target),
        Instruction::SUB(name) => subtract_effect(m, name, false, true),
        Instruction::SBC(name) => subtract_effect(m, name, true, true),
        Instruction::AND(target, source) => and_effect(m, target, source),
        Instruction::OR(name) => logic_effect(m, name, false),
        Instruction::XOR(name) => logic_effect(m, name, true),
        Instruction::CP(name) => subtract_effect(m, name, false, false),
        Instruction::INC(target) => step_value_effect(m, target, false),
        Instruction::DEC(target) => step_value_effect(m, target, true),
        Instruction::CCF() => carry_flag_effect(m, true),
        Instruction::SCF() => carry_flag_effect(m, false),
        Instruction::RRA() => shift_effect(m, ShiftKind::RotateRight, ArithmeticTarget::A, false),
        Instruction::RLA() => shift_effect(m, ShiftKind::RotateLeft, ArithmeticTarget::A, false),
        Instruction::RRCA() => shift_effect(
            m,
            ShiftKind::RotateRightCircular,
            ArithmeticTarget::A,
            false,
        ),
        Instruction::RLCA() => shift_effect(
            m,
            ShiftKind::RotateLeftCircular,
            ArithmeticTarget::A,
            false,
        ),
        Instruction::CPL() => complement_effect(m),
        Instruction::BIT(index, target) => bit_effect(m, index, target),
        Instruction::RESET(name) => reset_effect(m, name),
        Instruction::SET(index, name) => set_effect(m, index, name),
        Instruction::SRL(name) => shift_effect(m, ShiftKind::ShiftRightLogical, name, true),
        Instruction::RR(name) => shift_effect(m, ShiftKind::RotateRight, name, true),
        Instruction::RL(name) => shift_effect(m, ShiftKind::RotateLeft, name, true),
        Instruction::RRC(name) => shift_effect(m, ShiftKind::RotateRightCircular, name, true),
        Instruction::RLC(name) => shift_effect(m, ShiftKind::RotateLeftCircular, name, true),
        Instruction::SRA(name) => shift_effect(m, ShiftKind::ShiftRightArithmetic, name, true),
        Instruction::SLA(name) => shift_effect(m, ShiftKind::ShiftLeft, name, true),
        Instruction::SWAP(name) => swap_effect(m, name),
        Instruction::LD(target, source) => load_effect(m, target, source),
        Instruction::NOP() => advance(m, m, 0),
        Instruction::STOP() => Err(CpuError::Unimplemented { instruction, address: m.pc }),
        Instruction::DAA() => decimal_adjust_effect(m),
        Instruction::DI() => interrupt_enable_effect(m, false),
        Instruction::EI() => interrupt_enable_effect(m, true),
        Instruction::JP(condition, address) => jump_effect(m, condition, address),
    }
}

/// One fetch, decode and execute: the machine with the next opcode's
/// address in PC, or the reason why the CPU stopped.
pub open spec fn step_effect(m: Machine) -> Result<Machine, CpuError> {
    let opcode = m.byte(m.pc);
    if opcode == PREFIX_OPCODE {
        Err(CpuError::UnimplementedPrefix { opcode: m.immediate8(), address: m.pc })
    } else {
        match decode(opcode) {
            None => Err(CpuError::UnrecognizedOpcode { opcode, address: m.pc }),
            Some(instruction) => match effect(m, instruction) {
                Ok((after, next)) => Ok(Machine { pc: next, ..after }),
                Err(error) => Err(error),
            },
        }
    }
}

} // verus!
