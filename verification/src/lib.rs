//! Instruction-execution core of an SM83-style 8-bit CPU: a register file,
//! a flat 64 KiB memory bus, a decoder for single-byte opcodes and an
//! execution engine, each with a machine-checked contract.

pub mod alu;
pub mod bus;
pub mod cpu;
pub mod error;
pub mod instructions;
pub mod laws;
pub mod registers;
pub mod semantics;
pub mod state;

pub use bus::MemoryBus;
pub use cpu::CPU;
pub use error::CpuError;
pub use instructions::{ArithmeticTarget, DoubleTarget, Instruction, JumpCondition, Target};
pub use registers::{FlagsRegister, Registers};
