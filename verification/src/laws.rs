//! General facts about the instruction set, proved from the model.

use vstd::prelude::*;
use crate::error::CpuError;
use crate::instructions::{decode, ArithmeticTarget, Instruction, JumpCondition, Target, PREFIX_OPCODE};
use crate::semantics::{condition_holds, effect, jump_destination, step_effect};
use crate::state::{wrap16, Machine};

verus! {

/// AND with a register destination and a source it takes (a register or
/// the byte a pair points at) always succeeds, sets half-carry and clears
/// carry and subtract, whatever bits the operands hold.
pub proof fn lemma_and_fixes_half_carry_and_carry(m: Machine, target: ArithmeticTarget, source: Target)
    requires
        source is Register || source is MemoryR16,
    ensures
        effect(m, Instruction::AND(Target::Register(target), source)) is Ok,
        effect(m, Instruction::AND(Target::Register(target), source))->Ok_0.0.registers.f.half_carry,
        !effect(m, Instruction::AND(Target::Register(target), source))->Ok_0.0.registers.f.carry,
        !effect(m, Instruction::AND(Target::Register(target), source))->Ok_0.0.registers.f.subtract,
{
}

/// An unconditional jump sets PC to its destination and continues there,
/// whatever the flags hold, and changes nothing else; the destination is
/// the absolute address given, unless that is 0.
pub proof fn lemma_unconditional_jump(m: Machine, address: u16)
    ensures
        effect(m, Instruction::JP(JumpCondition::Always, address)) == Ok::<(Machine, u16), CpuError>(
            (Machine { pc: jump_destination(m, address), ..m }, jump_destination(m, address)),
        ),
        address != 0 ==> jump_destination(m, address) == address,
{
}

/// A jump whose condition does not hold changes nothing and continues
/// three bytes behind its opcode.
pub proof fn lemma_jump_not_taken(m: Machine, condition: JumpCondition, address: u16)
    requires
        !condition_holds(condition, m.registers.f),
    ensures
        effect(m, Instruction::JP(condition, address)) == Ok::<(Machine, u16), CpuError>(
            (m, wrap16(m.pc + 3)),
        ),
{
}

/// A step on a byte that encodes no instruction fails as an unrecognized
/// opcode, with the byte and its address; it never passes for another
/// instruction.
pub proof fn lemma_undecodable_opcode_is_reported(m: Machine)
    requires
        m.byte(m.pc) != PREFIX_OPCODE,
        decode(m.byte(m.pc)) is None,
    ensures
        step_effect(m) == Err::<Machine, CpuError>(
            CpuError::UnrecognizedOpcode { opcode: m.byte(m.pc), address: m.pc },
        ),
{
}

/// A step on the prefix of the extended instruction set fails as
/// unimplemented, which is a failure of its own kind.
pub proof fn lemma_prefix_is_unimplemented(m: Machine)
    requires
        m.byte(m.pc) == PREFIX_OPCODE,
    ensures
        step_effect(m) == Err::<Machine, CpuError>(
            CpuError::UnimplementedPrefix { opcode: m.immediate8(), address: m.pc },
        ),
{
}

/// No instruction resizes the memory: after every instruction that
/// executes, it still holds one byte for each address.
pub proof fn lemma_memory_is_never_resized(m: Machine, instruction: Instruction)
    requires
        m.well_formed(),
        effect(m, instruction) is Ok,
    ensures
        effect(m, instruction)->Ok_0.0.well_formed(),
{
}

/// A step that succeeds leaves the memory with one byte for each address.
pub proof fn lemma_step_keeps_memory_size(m: Machine)
    requires
        m.well_formed(),
        step_effect(m) is Ok,
    ensures
        step_effect(m)->Ok_0.well_formed(),
{
    let opcode = m.byte(m.pc);
    lemma_memory_is_never_resized(m, decode(opcode)->Some_0);
}

} // verus!
