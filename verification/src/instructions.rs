//! Instructions, their operand descriptors, and the opcode decoder.

use vstd::prelude::*;

verus! {

/// One of the seven 8-bit registers.
#[derive(Clone, Copy, Debug, PartialEq, Eq, Structural)]
pub enum ArithmeticTarget {
    A,
    B,
    C,
    D,
    E,
    H,
    L,
}

/// One of the 16-bit registers: a pair of 8-bit registers, or SP.
#[derive(Clone, Copy, Debug, PartialEq, Eq, Structural)]
pub enum DoubleTarget {
    BC,
    DE,
    HL,
    SP,
}

/// An operand descriptor: where an instruction finds or stores a value.
#[derive(Clone, Copy, Debug, PartialEq, Eq, Structural)]
pub enum Target {
    /// An 8-bit register.
    Register(ArithmeticTarget),
    /// A 16-bit register.
    Register16(DoubleTarget),
    /// The byte at the address held in a 16-bit register.
    MemoryR16(DoubleTarget),
    /// The byte at the address held, zero-extended, in an 8-bit register.
    MemoryR8(ArithmeticTarget),
    /// The byte that follows the opcode.
    Const8(),
    /// The little-endian 16-bit value that follows the opcode.
    Const16(),
    /// The byte at the address given by the 16-bit value that follows the opcode.
    MemoryConst16(),
}

/// The condition under which a jump is taken.
#[derive(Clone, Copy, Debug, PartialEq, Eq, Structural)]
pub enum JumpCondition {
    Always,
    Zero,
    NotZero,
    Carry,
    NotCarry,
}

/// A decoded instruction with its operand descriptors.
#[derive(Clone, Copy, Debug, PartialEq, Eq, Structural)]
pub enum Instruction {
    /// Destination, source.
    ADD(Target, Target),
    ADC(Target),
    SUB(ArithmeticTarget),
    SBC(ArithmeticTarget),
    /// Destination, source.
    AND(Target, Target),
    OR(ArithmeticTarget),
    XOR(ArithmeticTarget),
    CP(ArithmeticTarget),
    INC(Target),
    DEC(Target),
    CCF(),
    SCF(),
    RRA(),
    RLA(),
    RRCA(),
    RLCA(),
    CPL(),
    /// Bit index, operand.
    BIT(u8, Target),
    RESET(ArithmeticTarget),
    /// Bit index, register.
    SET(u8, ArithmeticTarget),
    SRL(ArithmeticTarget),
    RR(ArithmeticTarget),
    RL(ArithmeticTarget),
    RRC(ArithmeticTarget),
    RLC(ArithmeticTarget),
    SRA(ArithmeticTarget),
    SLA(ArithmeticTarget),
    SWAP(ArithmeticTarget),
    /// Destination, source.
    LD(Target, Target),
    NOP(),
    STOP(),
    DAA(),
    DI(),
    EI(),
    /// Condition and absolute address; address 0 selects the 16-bit
    /// immediate that follows the opcode.
    JP(JumpCondition, u16),
}

/// The opcode that introduces the extended instruction set.
pub const PREFIX_OPCODE: u8 = 0xCB;

/// The operand that a 3-bit register field of an opcode names:
/// B, C, D, E, H, L, the byte at HL, A.
pub open spec fn field_operand(code: u8) -> Target {
    if code == 0 {
        Target::Register(ArithmeticTarget::B)
    } else if code == 1 {
        Target::Register(ArithmeticTarget::C)
    } else if code == 2 {
        Target::Register(ArithmeticTarget::D)
    } else if code == 3 {
        Target::Register(ArithmeticTarget::E)
    } else if code == 4 {
        Target::Register(ArithmeticTarget::H)
    } else if code == 5 {
        Target::Register(ArithmeticTarget::L)
    } else if code == 6 {
        Target::MemoryR16(DoubleTarget::HL)
    } else {
        Target::Register(ArithmeticTarget::A)
    }
}

/// The 16-bit register that a 2-bit pair field of an opcode names.
pub open spec fn field_pair(code: u8) -> DoubleTarget {
    if code == 0 {
        DoubleTarget::BC
    } else if code == 1 {
        DoubleTarget::DE
    } else if code == 2 {
        DoubleTarget::HL
    } else {
        DoubleTarget::SP
    }
}

/// Decoding of the opcodes 0x00 to 0x3F, by the low three bits `low`
/// and the middle three bits `mid`.
pub open spec fn decode_low_block(mid: u8, low: u8) -> Option<Instruction> {
    if low == 0 {
        if mid == 0 {
            Some(Instruction::NOP())
        } else if mid == 2 {
            Some(Instruction::STOP())
        } else {
            None
        }
    } else if low == 1 {
        if mid % 2 == 0 {
            Some(Instruction::LD(Target::Register16(field_pair(mid / 2)), Target::Const16()))
        } else {
            Some(
                Instruction::ADD(
                    Target::Register16(DoubleTarget::HL),
                    Target::Register16(field_pair(mid / 2)),
                ),
            )
        }
    } else if low == 2 {
        if mid == 0 {
            Some(
                Instruction::LD(
                    Target::MemoryR16(DoubleTarget::BC),
                    Target::Register(ArithmeticTarget::A),
                ),
            )
        } else if mid == 1 {
            Some(
                Instruction::LD(
                    Target::Register(ArithmeticTarget::A),
                    Target::MemoryR16(DoubleTarget::BC),
                ),
            )
        } else if mid == 2 {
            Some(
                Instruction::LD(
                    Target::MemoryR16(DoubleTarget::DE),
                    Target::Register(ArithmeticTarget::A),
                ),
            )
        } else if mid == 3 {
            Some(
                Instruction::LD(
                    Target::Register(ArithmeticTarget::A),
                    Target::MemoryR16(DoubleTarget::DE),
                ),
            )
        } else {
            None
        }
    } else if low == 3 {
        if mid % 2 == 0 {
            Some(Instruction::INC(Target::Register16(field_pair(mid / 2))))
        } else {
            Some(Instruction::DEC(Target::Register16(field_pair(mid / 2))))
        }
    } else if low == 4 {
        Some(Instruction::INC(field_operand(mid)))
    } else if low == 5 {
        Some(Instruction::DEC(field_operand(mid)))
    } else if low == 6 {
        Some(Instruction::LD(field_operand(mid), Target::Const8()))
    } else {
        Some(
            if mid == 0 {
                Instruction::RLCA()
            } else if mid == 1 {
                Instruction::RRCA()
            } else if mid == 2 {
                Instruction::RLA()
            } else if mid == 3 {
                Instruction::RRA()
            } else if mid == 4 {
                Instruction::DAA()
            } else if mid == 5 {
                Instruction::CPL()
            } else if mid == 6 {
                Instruction::SCF()
            } else {
                Instruction::CCF()
            },
        )
    }
}

/// Decoding of the opcodes 0x80 to 0xBF: an operation on A, selected by
/// `mid`, with the operand named by `low`. The operations that take a
/// register only have no form for the byte at HL.
pub open spec fn decode_alu_block(mid: u8, low: u8) -> Option<Instruction> {
    let operand = field_operand(low);
    let accumulator = Target::Register(ArithmeticTarget::A);
    if mid == 0 {
        Some(Instruction::ADD(accumulator, operand))
    } else if mid == 1 {
        Some(Instruction::ADC(operand))
    } else if mid == 4 {
        Some(Instruction::AND(accumulator, operand))
    } else {
        match operand {
            Target::Register(register) => Some(
                if mid == 2 {
                    Instruction::SUB(register)
                } else if mid == 3 {
                    Instruction::SBC(register)
                } else if mid == 5 {
                    Instruction::XOR(register)
                } else if mid == 6 {
                    Instruction::OR(register)
                } else {
                    Instruction::CP(register)
                },
            ),
            _ => None,
        }
    }
}

/// Decoding of the opcodes 0xC0 to 0xFF.
pub open spec fn decode_high_block(byte: u8) -> Option<Instruction> {
    if byte == 0xC2 {
        Some(Instruction::JP(JumpCondition::NotZero, 0))
    } else if byte == 0xC3 {
        Some(Instruction::JP(JumpCondition::Always, 0))
    } else if byte == 0xCA {
        Some(Instruction::JP(JumpCondition::Zero, 0))
    } else if byte == 0xD2 {
        Some(Instruction::JP(JumpCondition::NotCarry, 0))
    } else if byte == 0xDA {
        Some(Instruction::JP(JumpCondition::Carry, 0))
    } else if byte == 0xC6 {
        Some(Instruction::ADD(Target::Register(ArithmeticTarget::A), Target::Const8()))
    } else if byte == 0xCE {
        Some(Instruction::ADC(Target::Const8()))
    } else if byte == 0xF3 {
        Some(Instruction::DI())
    } else if byte == 0xFB {
        Some(Instruction::EI())
    } else if byte == 0xF9 {
        Some(
            Instruction::LD(
                Target::Register16(DoubleTarget::SP),
                Target::Register16(DoubleTarget::HL),
            ),
        )
    } else if byte == 0xFA {
        Some(Instruction::LD(Target::Register(ArithmeticTarget::A), Target::MemoryConst16()))
    } else {
        None
    }
}

/// The instruction that an opcode byte encodes, or `None` where the byte
/// encodes none: the opcode's top two bits select the block, the middle
/// and low three bits the operation and its operands.
pub open spec fn decode(byte: u8) -> Option<Instruction> {
    let low = byte % 8;
    let mid = (byte / 8) % 8;
    if byte < 0x40 {
        decode_low_block(mid, low)
    } else if byte < 0x80 {
        if byte == 0x76 {
            None
        } else {
            Some(Instruction::LD(field_operand(mid), field_operand(low)))
        }
    } else if byte < 0xC0 {
        decode_alu_block(mid, low)
    } else {
        decode_high_block(byte)
    }
}

/// The operand named by a 3-bit register field.
fn operand_from_field(code: u8) -> (operand: Target)
    requires
        code < 8,
    ensures
        operand == field_operand(code),
{
    match code {
        0 => Target::Register(ArithmeticTarget::B),
        1 => Target::Register(ArithmeticTarget::C),
        2 => Target::Register(ArithmeticTarget::D),
        3 => Target::Register(ArithmeticTarget::E),
        4 => Target::Register(ArithmeticTarget::H),
        5 => Target::Register(ArithmeticTarget::L),
        6 => Target::MemoryR16(DoubleTarget::HL),
        _ => Target::Register(ArithmeticTarget::A),
    }
}

/// The 16-bit register named by a 2-bit pair field.
fn pair_from_field(code: u8) -> (pair: DoubleTarget)
    requires
        code < 4,
    ensures
        pair == field_pair(code),
{
    match code {
        0 => DoubleTarget::BC,
        1 => DoubleTarget::DE,
        2 => DoubleTarget::HL,
        _ => DoubleTarget::SP,
    }
}

/// Decodes an opcode below 0x40 from its fields.
fn low_block_from_fields(mid: u8, low: u8) -> (decoded: Option<Instruction>)
    requires
        mid < 8,
        low < 8,
    ensures
        decoded == decode_low_block(mid, low),
{
    let accumulator = Target::Register(ArithmeticTarget::A);
    match low {
        0 => match mid {
            0 => Some(Instruction::NOP()),
            2 => Some(Instruction::STOP()),
            _ => None,
        },
        1 => {
            let pair = pair_from_field(mid / 2);
            if mid % 2 == 0 {
                Some(Instruction::LD(Target::Register16(pair), Target::Const16()))
            } else {
                Some(Instruction::ADD(Target::Register16(DoubleTarget::HL), Target::Register16(pair)))
            }
        },
        2 => match mid {
            0 => Some(Instruction::LD(Target::MemoryR16(DoubleTarget::BC), accumulator)),
            1 => Some(Instruction::LD(accumulator, Target::MemoryR16(DoubleTarget::BC))),
            2 => Some(Instruction::LD(Target::MemoryR16(DoubleTarget::DE), accumulator)),
            3 => Some(Instruction::LD(accumulator, Target::MemoryR16(DoubleTarget::DE))),
            _ => None,
        },
        3 => {
            let pair = pair_from_field(mid / 2);
            if mid % 2 == 0 {
                Some(Instruction::INC(Target::Register16(pair)))
            } else {
                Some(Instruction::DEC(Target::Register16(pair)))
            }
        },
        4 => Some(Instruction::INC(operand_from_field(mid))),
        5 => Some(Instruction::DEC(operand_from_field(mid))),
        6 => Some(Instruction::LD(operand_from_field(mid), Target::Const8())),
        _ => match mid {
            0 => Some(Instruction::RLCA()),
            1 => Some(Instruction::RRCA()),
            2 => Some(Instruction::RLA()),
            3 => Some(Instruction::RRA()),
            4 => Some(Instruction::DAA()),
            5 => Some(Instruction::CPL()),
            6 => Some(Instruction::SCF()),
            _ => Some(Instruction::CCF()),
        },
    }
}

/// Decodes an opcode from 0x80 to 0xBF from its fields.
fn alu_block_from_fields(mid: u8, low: u8) -> (decoded: Option<Instruction>)
    requires
        mid < 8,
        low < 8,
    ensures
        decoded == decode_alu_block(mid, low),
{
    let accumulator = Target::Register(ArithmeticTarget::A);
    let operand = operand_from_field(low);
    match (mid, operand) {
        (0, _) => Some(Instruction::ADD(accumulator, operand)),
        (1, _) => Some(Instruction::ADC(operand)),
        (4, _) => Some(Instruction::AND(accumulator, operand)),
        (2, Target::Register(register)) => Some(Instruction::SUB(register)),
        (3, Target::Register(register)) => Some(Instruction::SBC(register)),
        (5, Target::Register(register)) => Some(Instruction::XOR(register)),
        (6, Target::Register(register)) => Some(Instruction::OR(register)),
        (_, Target::Register(register)) => Some(Instruction::CP(register)),
        _ => None,
    }
}

/// Decodes an opcode from 0xC0 on.
fn high_block_from_byte(byte: u8) -> (decoded: Option<Instruction>)
    ensures
        decoded == decode_high_block(byte),
{
    match byte {
        0xC2 => Some(Instruction::JP(JumpCondition::NotZero, 0)),
        0xC3 => Some(Instruction::JP(JumpCondition::Always, 0)),
        0xCA => Some(Instruction::JP(JumpCondition::Zero, 0)),
        0xD2 => Some(Instruction::JP(JumpCondition::NotCarry, 0)),
        0xDA => Some(Instruction::JP(JumpCondition::Carry, 0)),
        0xC6 => Some(Instruction::ADD(Target::Register(ArithmeticTarget::A), Target::Const8())),
        0xCE => Some(Instruction::ADC(Target::Const8())),
        0xF3 => Some(Instruction::DI()),
        0xFB => Some(Instruction::EI()),
        0xF9 => Some(
            Instruction::LD(Target::Register16(DoubleTarget::SP), Target::Register16(DoubleTarget::HL)),
        ),
        0xFA => Some(Instruction::LD(Target::Register(ArithmeticTarget::A), Target::MemoryConst16())),
        _ => None,
    }
}

impl Instruction {
    /// Decodes one opcode byte; `None` where the byte encodes no
    /// instruction.
    pub fn from_byte(byte: u8) -> (decoded: Option<Instruction>)
        ensures
            decoded == decode(byte),
    {
        let low: u8 = byte % 8;
        let mid: u8 = (byte / 8) % 8;
        if byte < 0x40 {
            low_block_from_fields(mid, low)
        } else if byte < 0x80 {
            if byte == 0x76 {
                None
            } else {
                Some(Instruction::LD(operand_from_field(mid), operand_from_field(low)))
            }
        } else if byte < 0xC0 {
            alu_block_from_fields(mid, low)
        } else {
            high_block_from_byte(byte)
        }
    }
}

/// The prefix opcode, and the opcodes that the instruction set leaves
/// undefined, decode to nothing; no opcode decodes to a jump with a
/// non-zero absolute address.
pub proof fn lemma_decode_gaps(byte: u8)
    ensures
        decode(PREFIX_OPCODE) is None,
        decode(0xD3) is None,
        decode(0xDB) is None,
        decode(0xDD) is None,
        decode(0xE3) is None,
        decode(0xE4) is None,
        decode(0xEB) is None,
        decode(0xEC) is None,
        decode(0xED) is None,
        decode(0xF4) is None,
        decode(0xFC) is None,
        decode(0xFD) is None,
        forall|condition: JumpCondition, address: u16|
            decode(byte) == Some(Instruction::JP(condition, address)) ==> address == 0,
{
}

/// Decoding is unambiguous: two opcodes that decode to the same
/// instruction are the same opcode.
pub proof fn lemma_decode_is_unambiguous(first: u8, second: u8)
    requires
        decode(first) is Some,
        decode(first) == decode(second),
    ensures
        first == second,
{
}

} // verus!
