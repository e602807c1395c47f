//! The conditions that stop the CPU.

use vstd::prelude::*;
use crate::instructions::{Instruction, Target};

verus! {

/// Why an opcode could not be decoded or an instruction not be executed.
/// Every one of them is fatal for the CPU instance at hand.
#[derive(Clone, Copy, Debug, PartialEq, Eq, Structural)]
pub enum CpuError {
    /// The byte `opcode`, fetched at `address`, encodes no instruction.
    UnrecognizedOpcode { opcode: u8, address: u16 },
    /// The prefix of the extended instruction set was fetched at
    /// `address`, followed by `opcode`; the extended set is not built.
    UnimplementedPrefix { opcode: u8, address: u16 },
    /// The instruction, found at `address`, is known but not built.
    Unimplemented { instruction: Instruction, address: u16 },
    /// The instruction was given an operand of a kind it does not take.
    IllegalOperand { instruction: Instruction, target: Target },
}

} // verus!
