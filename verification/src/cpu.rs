//! The execution engine: it owns the registers, the memory bus, the
//! program counter and the stack pointer, and applies instructions to
//! them as the model in `semantics` says.

use vstd::prelude::*;
use crate::alu::{
    add_bytes, add_words, and_bytes, decimal_adjust, decrement_byte, increment_byte, or_bytes,
    set_bit, shift_byte, subtract_bytes, swap_nibbles, test_bit, xor_bytes, ShiftKind,
};
use crate::bus::{MemoryBus, MEMORY_SIZE};
use crate::error::CpuError;
use crate::instructions::{
    ArithmeticTarget, DoubleTarget, Instruction, JumpCondition, Target, PREFIX_OPCODE,
};
use crate::registers::{join_bytes, split_bytes, FlagsRegister, Registers};
use crate::semantics::{
    adc_effect, add_effect, and_effect, bit_effect, carry_flag_effect, complement_effect,
    decimal_adjust_effect, effect, interrupt_enable_effect, jump_effect, load_effect,
    logic_effect, reset_effect, set_effect, shift_effect, step_effect, step_value_effect,
    subtract_effect, swap_effect, Outcome,
};
use crate::state::{operand_width, wrap16, Machine};

verus! {

/// The CPU: register file, program counter, stack pointer and memory.
pub struct CPU {
    pub registers: Registers,
    pub pc: u16,
    pub sp: u16,
    pub bus: MemoryBus,
}

impl View for CPU {
    type V = Machine;

    open spec fn view(&self) -> Machine {
        Machine { registers: self.registers, pc: self.pc, sp: self.sp, memory: self.bus@ }
    }
}

/// What a CPU is at construction: registers, flags, `ime`, PC and SP
/// zero, and a byte 0 at each of the 65536 addresses.
pub open spec fn is_initial(m: Machine) -> bool {
    &&& m.registers == Registers::zeroed()
    &&& m.pc == 0
    &&& m.sp == 0
    &&& m.memory.len() == MEMORY_SIZE
    &&& forall|address: int| 0 <= address < MEMORY_SIZE ==> m.memory[address] == 0
}

/// An execution went as `expected`: on success the machine is the
/// expected one and the result the next opcode's address; on failure the
/// error is the expected one and the machine is as it was.
pub open spec fn follows(
    before: Machine,
    after: Machine,
    result: Result<u16, CpuError>,
    expected: Outcome,
) -> bool {
    match expected {
        Ok((machine, next)) => result == Ok::<u16, CpuError>(next) && after == machine,
        Err(error) => result == Err::<u16, CpuError>(error) && after == before,
    }
}

/// `address + offset`, wrapping around at the end of the address space.
fn offset_address(address: u16, offset: u16) -> (sum: u16)
    ensures
        sum == wrap16(address + offset),
{
    let wide: u32 = address as u32 + offset as u32;
    if wide > 0xFFFF {
        (wide - 0x10000) as u16
    } else {
        wide as u16
    }
}

/// `value` plus or minus one, wrapping around.
fn step_word(value: u16, down: bool) -> (stepped: u16)
    ensures
        stepped == wrap16(
            value + if down {
                -1int
            } else {
                1int
            },
        ),
{
    if down {
        if value == 0 {
            0xFFFF
        } else {
            value - 1
        }
    } else {
        if value == 0xFFFF {
            0
        } else {
            value + 1
        }
    }
}

impl Default for CPU {
    fn default() -> (cpu: CPU)
        ensures
            is_initial(cpu@),
    {
        CPU::new()
    }
}

impl CPU {
    /// A CPU in its initial state.
    pub fn new() -> (cpu: CPU)
        ensures
            is_initial(cpu@),
    {
        CPU { registers: Registers::new(), pc: 0, sp: 0, bus: MemoryBus::new() }
    }

    /// The memory of a CPU always holds one byte for each address.
    pub proof fn lemma_well_formed(&self)
        ensures
            self@.well_formed(),
    {
        self.bus.lemma_size();
    }

    /// The value of an 8-bit register.
    pub fn get_register_value(&self, target: ArithmeticTarget) -> (value: u8)
        ensures
            value == self@.register(target),
    {
        match target {
            ArithmeticTarget::A => self.registers.a,
            ArithmeticTarget::B => self.registers.b,
            ArithmeticTarget::C => self.registers.c,
            ArithmeticTarget::D => self.registers.d,
            ArithmeticTarget::E => self.registers.e,
            ArithmeticTarget::H => self.registers.h,
            ArithmeticTarget::L => self.registers.l,
        }
    }

    /// Stores `value` in an 8-bit register.
    pub fn set_register_value(&mut self, target: ArithmeticTarget, value: u8)
        ensures
            final(self)@ == old(self)@.with_register(target, value),
    {
        match target {
            ArithmeticTarget::A => {
                self.registers.a = value;
            },
            ArithmeticTarget::B => {
                self.registers.b = value;
            },
            ArithmeticTarget::C => {
                self.registers.c = value;
            },
            ArithmeticTarget::D => {
                self.registers.d = value;
            },
            ArithmeticTarget::E => {
                self.registers.e = value;
            },
            ArithmeticTarget::H => {
                self.registers.h = value;
            },
            ArithmeticTarget::L => {
                self.registers.l = value;
            },
        }
    }

    /// The value of a 16-bit register.
    pub fn get_pair_value(&self, target: DoubleTarget) -> (value: u16)
        ensures
            value == self@.pair(target),
    {
        match target {
            DoubleTarget::BC => self.registers.get_bc(),
            DoubleTarget::DE => self.registers.get_de(),
            DoubleTarget::HL => self.registers.get_hl(),
            DoubleTarget::SP => self.sp,
        }
    }

    /// Stores `value` in a 16-bit register.
    pub fn set_pair_value(&mut self, target: DoubleTarget, value: u16)
        ensures
            final(self)@ == old(self)@.with_pair(target, value),
    {
        match target {
            DoubleTarget::BC => {
                self.registers.set_bc(value);
            },
            DoubleTarget::DE => {
                self.registers.set_de(value);
            },
            DoubleTarget::HL => {
                self.registers.set_hl(value);
            },
            DoubleTarget::SP => {
                self.sp = value;
            },
        }
    }

    /// Sets the program counter.
    pub fn jump(&mut self, address: u16)
        ensures
            final(self)@ == (Machine { pc: address, ..old(self)@ }),
    {
        self.pc = address;
    }

    /// The byte that follows the opcode at PC.
    fn immediate_byte(&self) -> (value: u8)
        ensures
            value == self@.immediate8(),
    {
        self.bus.read_byte(offset_address(self.pc, 1))
    }

    /// The 16-bit value that follows the opcode at PC, low byte first.
    fn immediate_word(&self) -> (value: u16)
        ensures
            value == self@.immediate16(),
    {
        let low = self.bus.read_byte(offset_address(self.pc, 1));
        let high = self.bus.read_byte(offset_address(self.pc, 2));
        join_bytes(high, low)
    }

    /// Resolves an operand to its value; a byte is widened with zeros.
    pub fn operand_value(&self, target: Target) -> (value: u16)
        ensures
            value == self@.operand(target),
    {
        match target {
            Target::Register(name) => self.get_register_value(name) as u16,
            Target::Register16(name) => self.get_pair_value(name),
            Target::MemoryR16(name) => self.bus.read_byte(self.get_pair_value(name)) as u16,
            Target::MemoryR8(name) => self.bus.read_byte(self.get_register_value(name) as u16) as u16,
            Target::Const8() => self.immediate_byte() as u16,
            Target::Const16() => self.immediate_word(),
            Target::MemoryConst16() => self.bus.read_byte(self.immediate_word()) as u16,
        }
    }

    /// The low byte of the value an operand resolves to.
    fn operand_byte(&self, target: Target) -> (value: u8)
        ensures
            value == self@.operand8(target),
    {
        split_bytes(self.operand_value(target)).1
    }

    /// The address behind an instruction with the given operand.
    fn address_after(&self, operand: Target) -> (next: u16)
        ensures
            next == self@.pc_after(operand_width(operand)),
    {
        let width: u16 = match operand {
            Target::Const8() => 2,
            Target::Const16() => 3,
            Target::MemoryConst16() => 3,
            _ => 1,
        };
        offset_address(self.pc, width)
    }

    /// The address behind an instruction without immediate bytes.
    fn address_after_opcode(&self) -> (next: u16)
        ensures
            next == self@.pc_after(0),
    {
        offset_address(self.pc, 1)
    }

    /// ADD: to an 8-bit register or to a 16-bit register.
    fn execute_add(&mut self, target: Target, source: Target) -> (result: Result<u16, CpuError>)
        ensures
            follows(old(self)@, final(self)@, result, add_effect(old(self)@, target, source)),
    {
        let instruction = Instruction::ADD(target, source);
        match source {
            Target::Register(_) | Target::Const8() | Target::Register16(_) | Target::MemoryR16(_) => {},
            _ => {
                return Err(CpuError::IllegalOperand { instruction, target: source });
            },
        }
        let next = self.address_after(source);
        match target {
            Target::Register(name) => {
                let value = self.operand_byte(source);
                let (sum, flags) = add_bytes(self.get_register_value(name), value, false);
                self.set_register_value(name, sum);
                self.registers.f = flags;
                Ok(next)
            },
            Target::Register16(name) => {
                let value = self.operand_value(source);
                let (sum, flags) = add_words(self.get_pair_value(name), value, self.registers.f);
                self.set_pair_value(name, sum);
                self.registers.f = flags;
                Ok(next)
            },
            _ => Err(CpuError::IllegalOperand { instruction, target }),
        }
    }

    /// ADC: adds the operand and the carry flag to A.
    fn execute_adc(&mut self, target: Target) -> (result: Result<u16, CpuError>)
        ensures
            follows(old(self)@, final(self)@, result, adc_effect(old(self)@, target)),
    {
        match target {
            Target::Const8() | Target::Register(_) | Target::MemoryR16(_) => {
                let next = self.address_after(target);
                let value = self.operand_byte(target);
                let (sum, flags) = add_bytes(self.registers.a, value, self.registers.f.carry);
                self.registers.a = sum;
                self.registers.f = flags;
                Ok(next)
            },
            _ => Err(CpuError::IllegalOperand { instruction: Instruction::ADC(target), target }),
        }
    }

    /// AND: A and the source, stored in the destination register.
    fn execute_and(&mut self, target: Target, source: Target) -> (result: Result<u16, CpuError>)
        ensures
            follows(old(self)@, final(self)@, result, and_effect(old(self)@, target, source)),
    {
        let instruction = Instruction::AND(target, source);
        match source {
            Target::Register(_) | Target::MemoryR16(_) => {},
            _ => {
                return Err(CpuError::IllegalOperand { instruction, target: source });
            },
        }
        match target {
            Target::Register(name) => {
                let next = self.address_after_opcode();
                let value = self.operand_byte(source);
                let (conjunction, flags) = and_bytes(self.registers.a, value);
                self.set_register_value(name, conjunction);
                self.registers.f = flags;
                Ok(next)
            },
            _ => Err(CpuError::IllegalOperand { instruction, target }),
        }
    }

    /// INC (`down` clear) and DEC (`down` set).
    fn execute_step_value(&mut self, target: Target, down: bool) -> (result: Result<u16, CpuError>)
        ensures
            follows(old(self)@, final(self)@, result, step_value_effect(old(self)@, target, down)),
    {
        let next = self.address_after_opcode();
        match target {
            Target::Register(name) => {
                let value = self.get_register_value(name);
                let (stepped, flags) = if down {
                    decrement_byte(value, self.registers.f)
                } else {
                    increment_byte(value, self.registers.f)
                };
                self.set_register_value(name, stepped);
                self.registers.f = flags;
                Ok(next)
            },
            Target::Register16(name) => {
                let value = self.get_pair_value(name);
                let stepped = step_word(value, down);
                self.set_pair_value(name, stepped);
                Ok(next)
            },
            Target::MemoryR16(name) => {
                let address = self.get_pair_value(name);
                let value = self.bus.read_byte(address);
                let (stepped, flags) = if down {
                    decrement_byte(value, self.registers.f)
                } else {
                    increment_byte(value, self.registers.f)
                };
                let wrapped = if down { value == 0 } else { value == 0xFF };
                self.bus.write_byte(address, stepped);
                self.registers.f = FlagsRegister {
                    zero: flags.zero,
                    subtract: flags.subtract,
                    half_carry: flags.half_carry,
                    carry: wrapped,
                };
                Ok(next)
            },
            _ => Err(
                CpuError::IllegalOperand {
                    instruction: if down { Instruction::DEC(target) } else { Instruction::INC(target) },
                    target,
                },
            ),
        }
    }

    /// BIT: tests one bit of the operand.
    fn execute_bit(&mut self, index: u8, target: Target) -> (result: Result<u16, CpuError>)
        ensures
            follows(old(self)@, final(self)@, result, bit_effect(old(self)@, index, target)),
    {
        match target {
            Target::Register(_) | Target::MemoryR16(_) => {
                let next = self.address_after_opcode();
                let set = test_bit(self.operand_byte(target), index);
                self.registers.f.zero = !set;
                self.registers.f.subtract = false;
                self.registers.f.half_carry = true;
                Ok(next)
            },
            _ => Err(CpuError::IllegalOperand { instruction: Instruction::BIT(index, target), target }),
        }
    }

    /// LD: copies the source to the destination.
    fn execute_load(&mut self, target: Target, source: Target) -> (result: Result<u16, CpuError>)
        ensures
            follows(old(self)@, final(self)@, result, load_effect(old(self)@, target, source)),
    {
        let next = self.address_after(source);
        let value = self.operand_value(source);
        let byte = self.operand_byte(source);
        match target {
            Target::Register(name) => {
                self.set_register_value(name, byte);
                Ok(next)
            },
            Target::Register16(name) => {
                self.set_pair_value(name, value);
                Ok(next)
            },
            Target::MemoryR8(name) => {
                let address = self.get_register_value(name) as u16;
                self.bus.write_byte(address, byte);
                Ok(next)
            },
            Target::MemoryR16(name) => {
                let address = self.get_pair_value(name);
                self.bus.write_byte(address, byte);
                Ok(next)
            },
            _ => Err(CpuError::IllegalOperand { instruction: Instruction::LD(target, source), target }),
        }
    }

    /// JP: sets PC where the condition holds.
    fn execute_jump(&mut self, condition: JumpCondition, address: u16) -> (result: Result<
        u16,
        CpuError,
    >)
        ensures
            follows(old(self)@, final(self)@, result, jump_effect(old(self)@, condition, address)),
    {
        let taken = match condition {
            JumpCondition::Always => true,
            JumpCondition::Zero => self.registers.f.zero,
            JumpCondition::NotZero => !self.registers.f.zero,
            JumpCondition::Carry => self.registers.f.carry,
            JumpCondition::NotCarry => !self.registers.f.carry,
        };
        if taken {
            let destination = if address != 0 { address } else { self.immediate_word() };
            self.jump(destination);
            Ok(destination)
        } else {
            Ok(offset_address(self.pc, 3))
        }
    }

    /// SUB, SBC (`with_carry`) and CP (`store` clear).
    fn execute_subtract(&mut self, name: ArithmeticTarget, with_carry: bool, store: bool) -> (next: u16)
        ensures
            follows(
                old(self)@,
                final(self)@,
                Ok(next),
                subtract_effect(old(self)@, name, with_carry, store),
            ),
    {
        let value = self.get_register_value(name);
        let (difference, flags) = subtract_bytes(
            self.registers.a,
            value,
            with_carry && self.registers.f.carry,
        );
        if store {
            self.registers.a = difference;
        }
        self.registers.f = flags;
        self.address_after_opcode()
    }

    /// The rotations and shifts of a register.
    fn execute_shift(&mut self, kind: ShiftKind, name: ArithmeticTarget, zero_from_result: bool) -> (next: u16)
        ensures
            follows(
                old(self)@,
                final(self)@,
                Ok(next),
                shift_effect(old(self)@, kind, name, zero_from_result),
            ),
    {
        let value = self.get_register_value(name);
        let (shifted, flags) = shift_byte(kind, value, self.registers.f.carry, zero_from_result);
        self.set_register_value(name, shifted);
        self.registers.f = flags;
        self.address_after_opcode()
    }

    /// OR and XOR (`exclusive`) of A with a register.
    fn execute_logic(&mut self, name: ArithmeticTarget, exclusive: bool) -> (next: u16)
        ensures
            follows(
                old(self)@,
                final(self)@,
                Ok(next),
                logic_effect(old(self)@, name, exclusive),
            ),
    {
        let value = self.get_register_value(name);
        let (combined, flags) = if exclusive {
            xor_bytes(self.registers.a, value)
        } else {
            or_bytes(self.registers.a, value)
        };
        self.registers.a = combined;
        self.registers.f = flags;
        self.address_after_opcode()
    }

    /// CCF (`invert`) and SCF.
    fn execute_carry_flag(&mut self, invert: bool) -> (next: u16)
        ensures
            follows(
                old(self)@,
                final(self)@,
                Ok(next),
                carry_flag_effect(old(self)@, invert),
            ),
    {
        self.registers.f.subtract = false;
        self.registers.f.half_carry = false;
        self.registers.f.carry = if invert { !self.registers.f.carry } else { true };
        self.address_after_opcode()
    }

    /// CPL: inverts every bit of A.
    fn execute_complement(&mut self) -> (next: u16)
        ensures
            follows(
                old(self)@,
                final(self)@,
                Ok(next),
                complement_effect(old(self)@),
            ),
    {
        let value = self.registers.a;
        assert(!value == 255 - value) by (bit_vector);
        self.registers.a = !value;
        self.registers.f.subtract = true;
        self.registers.f.half_carry = true;
        self.address_after_opcode()
    }

    /// RESET: sets the flags from bit 0 of the register.
    fn execute_reset(&mut self, name: ArithmeticTarget) -> (next: u16)
        ensures
            follows(
                old(self)@,
                final(self)@,
                Ok(next),
                reset_effect(old(self)@, name),
            ),
    {
        let set = test_bit(self.get_register_value(name), 0);
        self.registers.f.zero = !set;
        self.registers.f.subtract = false;
        self.registers.f.half_carry = true;
        self.address_after_opcode()
    }

    /// SET: sets one bit of a register.
    fn execute_set(&mut self, index: u8, name: ArithmeticTarget) -> (next: u16)
        ensures
            follows(
                old(self)@,
                final(self)@,
                Ok(next),
                set_effect(old(self)@, index, name),
            ),
    {
        let value = set_bit(self.get_register_value(name), index);
        self.set_register_value(name, value);
        self.address_after_opcode()
    }

    /// SWAP: exchanges the nibbles of a register.
    fn execute_swap(&mut self, name: ArithmeticTarget) -> (next: u16)
        ensures
            follows(
                old(self)@,
                final(self)@,
                Ok(next),
                swap_effect(old(self)@, name),
            ),
    {
        let (swapped, flags) = swap_nibbles(self.get_register_value(name));
        self.set_register_value(name, swapped);
        self.registers.f = flags;
        self.address_after_opcode()
    }

    /// DAA: decimal adjustment of A.
    fn execute_decimal_adjust(&mut self) -> (next: u16)
        ensures
            follows(
                old(self)@,
                final(self)@,
                Ok(next),
                decimal_adjust_effect(old(self)@),
            ),
    {
        let (adjusted, flags) = decimal_adjust(self.registers.a, self.registers.f);
        self.registers.a = adjusted;
        self.registers.f = flags;
        self.address_after_opcode()
    }

    /// DI and EI.
    fn execute_interrupt_enable(&mut self, enabled: bool) -> (next: u16)
        ensures
            follows(
                old(self)@,
                final(self)@,
                Ok(next),
                interrupt_enable_effect(old(self)@, enabled),
            ),
    {
        self.registers.ime = enabled;
        self.address_after_opcode()
    }

    /// Applies one decoded instruction and returns the address of the next
    /// opcode. PC itself changes only by a taken jump, which sets it to
    /// the address returned. An instruction that cannot be executed
    /// changes nothing.
    pub fn execute(&mut self, instruction: Instruction) -> (result: Result<u16, CpuError>)
        ensures
            follows(old(self)@, final(self)@, result, effect(old(self)@, instruction)),
    {
        let accumulator = ArithmeticTarget::A;
        match instruction {
            Instruction::ADD(target, source) => self.execute_add(target, source),
            Instruction::ADC(target) => self.execute_adc(target),
            Instruction::SUB(name) => Ok(self.execute_subtract(name, false, true)),
            Instruction::SBC(name) => Ok(self.execute_subtract(name, true, true)),
            Instruction::AND(target, source) => self.execute_and(target, source),
            Instruction::OR(name) => Ok(self.execute_logic(name, false)),
            Instruction::XOR(name) => Ok(self.execute_logic(name, true)),
            Instruction::CP(name) => Ok(self.execute_subtract(name, false, false)),
            Instruction::INC(target) => self.execute_step_value(target, false),
            Instruction::DEC(target) => self.execute_step_value(target, true),
            Instruction::CCF() => Ok(self.execute_carry_flag(true)),
            Instruction::SCF() => Ok(self.execute_carry_flag(false)),
            Instruction::RRA() => Ok(self.execute_shift(ShiftKind::RotateRight, accumulator, false)),
            Instruction::RLA() => Ok(self.execute_shift(ShiftKind::RotateLeft, accumulator, false)),
            Instruction::RRCA() => Ok(
                self.execute_shift(ShiftKind::RotateRightCircular, accumulator, false),
            ),
            Instruction::RLCA() => Ok(
                self.execute_shift(ShiftKind::RotateLeftCircular, accumulator, false),
            ),
            Instruction::CPL() => Ok(self.execute_complement()),
            Instruction::BIT(index, target) => self.execute_bit(index, target),
            Instruction::RESET(name) => Ok(self.execute_reset(name)),
            Instruction::SET(index, name) => Ok(self.execute_set(index, name)),
            Instruction::SRL(name) => Ok(self.execute_shift(ShiftKind::ShiftRightLogical, name, true)),
            Instruction::RR(name) => Ok(self.execute_shift(ShiftKind::RotateRight, name, true)),
            Instruction::RL(name) => Ok(self.execute_shift(ShiftKind::RotateLeft, name, true)),
            Instruction::RRC(name) => Ok(
                self.execute_shift(ShiftKind::RotateRightCircular, name, true),
            ),
            Instruction::RLC(name) => Ok(
                self.execute_shift(ShiftKind::RotateLeftCircular, name, true),
            ),
            Instruction::SRA(name) => Ok(
                self.execute_shift(ShiftKind::ShiftRightArithmetic, name, true),
            ),
            Instruction::SLA(name) => Ok(self.execute_shift(ShiftKind::ShiftLeft, name, true)),
            Instruction::SWAP(name) => Ok(self.execute_swap(name)),
            Instruction::LD(target, source) => self.execute_load(target, source),
            Instruction::NOP() => Ok(self.address_after_opcode()),
            Instruction::STOP() => Err(CpuError::Unimplemented { instruction, address: self.pc }),
            Instruction::DAA() => Ok(self.execute_decimal_adjust()),
            Instruction::DI() => Ok(self.execute_interrupt_enable(false)),
            Instruction::EI() => Ok(self.execute_interrupt_enable(true)),
            Instruction::JP(condition, address) => self.execute_jump(condition, address),
        }
    }

    /// Fetches the opcode at PC, decodes it, executes the instruction and
    /// sets PC to the address of the next opcode. Where the opcode cannot
    /// be decoded or the instruction not be executed, nothing changes.
    pub fn step(&mut self) -> (result: Result<(), CpuError>)
        ensures
            match step_effect(old(self)@) {
                Ok(machine) => result is Ok && final(self)@ == machine,
                Err(error) => result == Err::<(), CpuError>(error) && final(self)@ == old(self)@,
            },
    {
        let opcode = self.bus.read_byte(self.pc);
        if opcode == PREFIX_OPCODE {
            return Err(
                CpuError::UnimplementedPrefix { opcode: self.immediate_byte(), address: self.pc },
            );
        }
        match Instruction::from_byte(opcode) {
            None => Err(CpuError::UnrecognizedOpcode { opcode, address: self.pc }),
            Some(instruction) => match self.execute(instruction) {
                Ok(next) => {
                    self.jump(next);
                    Ok(())
                },
                Err(error) => Err(error),
            },
        }
    }
}

} // verus!
