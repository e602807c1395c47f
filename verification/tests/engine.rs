use sm83_core::{
    ArithmeticTarget, CpuError, DoubleTarget, FlagsRegister, Instruction, JumpCondition, Target,
    CPU,
};

fn reg(name: ArithmeticTarget) -> Target {
    Target::Register(name)
}

fn flags(zero: bool, subtract: bool, half_carry: bool, carry: bool) -> FlagsRegister {
    FlagsRegister { zero, subtract, half_carry, carry }
}

#[test]
fn add_returns_the_address_behind_the_opcode() {
    let mut cpu = CPU::default();
    cpu.pc = 0x0150;
    let next = cpu.execute(Instruction::ADD(reg(ArithmeticTarget::A), reg(ArithmeticTarget::B)));
    assert_eq!(next, Ok(0x0151));
    assert_eq!(cpu.pc, 0x0150);
}

#[test]
fn add_immediate_consumes_one_more_byte() {
    let mut cpu = CPU::default();
    cpu.registers.a = 0x01;
    cpu.bus.write_byte(0x0001, 0x0F);
    let next = cpu.execute(Instruction::ADD(reg(ArithmeticTarget::A), Target::Const8()));
    assert_eq!(next, Ok(2));
    assert_eq!(cpu.registers.a, 0x10);
    assert_eq!(cpu.registers.f, flags(false, false, true, false));
}

#[test]
fn add_wraps_to_zero_with_carry() {
    let mut cpu = CPU::default();
    cpu.registers.a = 0xFF;
    cpu.registers.b = 0x01;
    cpu.execute(Instruction::ADD(reg(ArithmeticTarget::A), reg(ArithmeticTarget::B))).unwrap();
    assert_eq!(cpu.registers.a, 0x00);
    assert_eq!(cpu.registers.f, flags(true, false, true, true));
}

#[test]
fn add_half_carry_comes_from_the_destination() {
    let mut cpu = CPU::default();
    cpu.registers.a = 0x00;
    cpu.registers.b = 0x0F;
    cpu.registers.c = 0x01;
    cpu.execute(Instruction::ADD(reg(ArithmeticTarget::B), reg(ArithmeticTarget::C))).unwrap();
    assert_eq!(cpu.registers.b, 0x10);
    assert_eq!(cpu.registers.a, 0x00);
    assert_eq!(cpu.registers.f, flags(false, false, true, false));
}

#[test]
fn add_takes_the_low_byte_of_a_pair() {
    let mut cpu = CPU::default();
    cpu.registers.a = 0x01;
    cpu.registers.set_de(0x1202);
    cpu.execute(Instruction::ADD(reg(ArithmeticTarget::A), Target::Register16(DoubleTarget::DE)))
        .unwrap();
    assert_eq!(cpu.registers.a, 0x03);
}

#[test]
fn add_from_memory() {
    let mut cpu = CPU::default();
    cpu.registers.a = 0x20;
    cpu.registers.set_bc(0x4000);
    cpu.bus.write_byte(0x4000, 0x22);
    cpu.execute(Instruction::ADD(reg(ArithmeticTarget::A), Target::MemoryR16(DoubleTarget::BC)))
        .unwrap();
    assert_eq!(cpu.registers.a, 0x42);
}

#[test]
fn add_pair_overflow_keeps_zero_flag() {
    let mut cpu = CPU::default();
    cpu.registers.set_hl(0xFFFF);
    cpu.registers.set_bc(0x0001);
    cpu.registers.f = flags(false, true, false, false);
    cpu.execute(Instruction::ADD(
        Target::Register16(DoubleTarget::HL),
        Target::Register16(DoubleTarget::BC),
    ))
    .unwrap();
    assert_eq!(cpu.registers.get_hl(), 0x0000);
    assert_eq!(cpu.registers.f, flags(false, false, true, true));

    cpu.registers.set_hl(0x0800);
    cpu.registers.set_bc(0x0800);
    cpu.registers.f = flags(true, false, false, false);
    cpu.execute(Instruction::ADD(
        Target::Register16(DoubleTarget::HL),
        Target::Register16(DoubleTarget::BC),
    ))
    .unwrap();
    assert_eq!(cpu.registers.get_hl(), 0x1000);
    assert_eq!(cpu.registers.f, flags(true, false, true, false));
}

#[test]
fn add_to_stack_pointer() {
    let mut cpu = CPU::default();
    cpu.sp = 0xFFF0;
    cpu.registers.a = 0x20;
    cpu.execute(Instruction::ADD(Target::Register16(DoubleTarget::SP), reg(ArithmeticTarget::A)))
        .unwrap();
    assert_eq!(cpu.sp, 0x0010);
    assert_eq!(cpu.registers.f, flags(false, false, true, true));
    assert_eq!(cpu.registers.a, 0x20);
}

#[test]
fn add_rejects_illegal_operands() {
    let mut cpu = CPU::default();
    cpu.registers.a = 7;
    let bad_source = Instruction::ADD(reg(ArithmeticTarget::A), Target::Const16());
    assert_eq!(
        cpu.execute(bad_source),
        Err(CpuError::IllegalOperand { instruction: bad_source, target: Target::Const16() })
    );
    let bad_target = Instruction::ADD(Target::Const8(), reg(ArithmeticTarget::A));
    assert_eq!(
        cpu.execute(bad_target),
        Err(CpuError::IllegalOperand { instruction: bad_target, target: Target::Const8() })
    );
    let both_bad = Instruction::ADD(Target::MemoryConst16(), Target::MemoryR8(ArithmeticTarget::C));
    assert_eq!(
        cpu.execute(both_bad),
        Err(CpuError::IllegalOperand {
            instruction: both_bad,
            target: Target::MemoryR8(ArithmeticTarget::C)
        })
    );
    assert_eq!(cpu.registers.a, 7);
    assert_eq!(cpu.registers.f, flags(false, false, false, false));
    assert_eq!(cpu.pc, 0);
}

#[test]
fn adc_adds_the_carry_in() {
    let mut cpu = CPU::default();
    cpu.registers.a = 0x0E;
    cpu.registers.c = 0x01;
    cpu.registers.f.carry = true;
    cpu.execute(Instruction::ADC(reg(ArithmeticTarget::C))).unwrap();
    assert_eq!(cpu.registers.a, 0x10);
    assert_eq!(cpu.registers.f, flags(false, false, true, false));
}

#[test]
fn adc_of_255_and_carry_keeps_the_accumulator() {
    let mut cpu = CPU::default();
    cpu.registers.a = 0x00;
    cpu.registers.b = 0xFF;
    cpu.registers.f.carry = true;
    cpu.execute(Instruction::ADC(reg(ArithmeticTarget::B))).unwrap();
    assert_eq!(cpu.registers.a, 0x00);
    assert_eq!(cpu.registers.f, flags(true, false, true, true));
}

#[test]
fn adc_immediate() {
    let mut cpu = CPU::default();
    cpu.pc = 0x10;
    cpu.registers.a = 0x01;
    cpu.bus.write_byte(0x11, 0x02);
    assert_eq!(cpu.execute(Instruction::ADC(Target::Const8())), Ok(0x12));
    assert_eq!(cpu.registers.a, 0x03);
}

#[test]
fn adc_reads_the_named_pair() {
    let mut cpu = CPU::default();
    cpu.registers.set_de(0x3000);
    cpu.bus.write_byte(0x3000, 0x05);
    cpu.registers.a = 0x01;
    cpu.execute(Instruction::ADC(Target::MemoryR16(DoubleTarget::DE))).unwrap();
    assert_eq!(cpu.registers.a, 0x06);
}

#[test]
fn adc_rejects_a_pair() {
    let mut cpu = CPU::default();
    let instruction = Instruction::ADC(Target::Register16(DoubleTarget::BC));
    assert_eq!(
        cpu.execute(instruction),
        Err(CpuError::IllegalOperand { instruction, target: Target::Register16(DoubleTarget::BC) })
    );
}

#[test]
fn sub_sets_borrow_flags() {
    let mut cpu = CPU::default();
    cpu.registers.a = 0x10;
    cpu.registers.b = 0x01;
    cpu.execute(Instruction::SUB(ArithmeticTarget::B)).unwrap();
    assert_eq!(cpu.registers.a, 0x0F);
    assert_eq!(cpu.registers.f, flags(false, true, true, false));

    cpu.registers.a = 0x00;
    cpu.execute(Instruction::SUB(ArithmeticTarget::B)).unwrap();
    assert_eq!(cpu.registers.a, 0xFF);
    assert_eq!(cpu.registers.f, flags(false, true, true, true));

    cpu.registers.a = 0x01;
    cpu.execute(Instruction::SUB(ArithmeticTarget::B)).unwrap();
    assert_eq!(cpu.registers.a, 0x00);
    assert_eq!(cpu.registers.f, flags(true, true, false, false));
}

#[test]
fn sub_ignores_the_carry_flag() {
    let mut cpu = CPU::default();
    cpu.registers.a = 0x05;
    cpu.registers.b = 0x02;
    cpu.registers.f.carry = true;
    cpu.execute(Instruction::SUB(ArithmeticTarget::B)).unwrap();
    assert_eq!(cpu.registers.a, 0x03);
}

#[test]
fn sbc_subtracts_the_carry_too() {
    let mut cpu = CPU::default();
    cpu.registers.a = 0x10;
    cpu.registers.b = 0x0F;
    cpu.registers.f.carry = true;
    cpu.execute(Instruction::SBC(ArithmeticTarget::B)).unwrap();
    assert_eq!(cpu.registers.a, 0x00);
    assert_eq!(cpu.registers.f, flags(true, true, true, false));

    cpu.registers.a = 0x00;
    cpu.registers.b = 0xFF;
    cpu.registers.f.carry = true;
    cpu.execute(Instruction::SBC(ArithmeticTarget::B)).unwrap();
    assert_eq!(cpu.registers.a, 0x00);
    assert_eq!(cpu.registers.f, flags(true, true, true, true));

    cpu.registers.a = 0x05;
    cpu.registers.b = 0x02;
    cpu.registers.f.carry = false;
    cpu.execute(Instruction::SBC(ArithmeticTarget::B)).unwrap();
    assert_eq!(cpu.registers.a, 0x03);
    assert_eq!(cpu.registers.f, flags(false, true, false, false));
}

#[test]
fn cp_leaves_the_accumulator() {
    let mut cpu = CPU::default();
    cpu.registers.a = 0x01;
    cpu.registers.b = 0x02;
    cpu.execute(Instruction::CP(ArithmeticTarget::B)).unwrap();
    assert_eq!(cpu.registers.a, 0x01);
    assert_eq!(cpu.registers.f, flags(false, true, true, true));
}

#[test]
fn and_fixes_half_carry_and_carry() {
    let names = [
        ArithmeticTarget::A,
        ArithmeticTarget::B,
        ArithmeticTarget::C,
        ArithmeticTarget::D,
        ArithmeticTarget::E,
        ArithmeticTarget::H,
        ArithmeticTarget::L,
    ];
    for name in names {
        for value in [0x00u8, 0x0F, 0xF0, 0xFF, 0x5A] {
            let mut cpu = CPU::default();
            cpu.registers.a = 0xA5;
            cpu.set_register_value(name, value);
            cpu.registers.f = flags(false, true, false, true);
            let expected = cpu.registers.a & value;
            cpu.execute(Instruction::AND(reg(ArithmeticTarget::A), reg(name))).unwrap();
            assert_eq!(cpu.registers.a, expected);
            assert_eq!(cpu.registers.f, flags(expected == 0, false, true, false));
        }
    }
}

#[test]
fn and_from_memory_into_another_register() {
    let mut cpu = CPU::default();
    cpu.registers.a = 0xF0;
    cpu.registers.set_hl(0x2000);
    cpu.bus.write_byte(0x2000, 0x3C);
    cpu.execute(Instruction::AND(reg(ArithmeticTarget::B), Target::MemoryR16(DoubleTarget::HL)))
        .unwrap();
    assert_eq!(cpu.registers.b, 0x30);
    assert_eq!(cpu.registers.a, 0xF0);
    assert_eq!(cpu.bus.read_byte(0x2000), 0x3C);
}

#[test]
fn and_rejects_illegal_operands() {
    let mut cpu = CPU::default();
    let bad_source = Instruction::AND(reg(ArithmeticTarget::A), Target::Const8());
    assert_eq!(
        cpu.execute(bad_source),
        Err(CpuError::IllegalOperand { instruction: bad_source, target: Target::Const8() })
    );
    let bad_target =
        Instruction::AND(Target::Register16(DoubleTarget::HL), reg(ArithmeticTarget::B));
    assert_eq!(
        cpu.execute(bad_target),
        Err(CpuError::IllegalOperand {
            instruction: bad_target,
            target: Target::Register16(DoubleTarget::HL)
        })
    );
    assert_eq!(cpu.registers.f, flags(false, false, false, false));
}

#[test]
fn or_and_xor_clear_half_carry_and_carry() {
    let mut cpu = CPU::default();
    cpu.registers.a = 0xF0;
    cpu.registers.c = 0x0F;
    cpu.registers.f = flags(true, true, true, true);
    cpu.execute(Instruction::OR(ArithmeticTarget::C)).unwrap();
    assert_eq!(cpu.registers.a, 0xFF);
    assert_eq!(cpu.registers.f, flags(false, false, false, false));

    cpu.registers.f = flags(false, true, true, true);
    cpu.execute(Instruction::XOR(ArithmeticTarget::A)).unwrap();
    assert_eq!(cpu.registers.a, 0x00);
    assert_eq!(cpu.registers.f, flags(true, false, false, false));

    cpu.registers.c = 0x00;
    cpu.execute(Instruction::OR(ArithmeticTarget::C)).unwrap();
    assert_eq!(cpu.registers.a, 0x00);
    assert!(cpu.registers.f.zero);
}

#[test]
fn inc_register_keeps_carry() {
    let mut cpu = CPU::default();
    cpu.registers.d = 0x0F;
    cpu.registers.f.carry = true;
    cpu.execute(Instruction::INC(reg(ArithmeticTarget::D))).unwrap();
    assert_eq!(cpu.registers.d, 0x10);
    assert_eq!(cpu.registers.f, flags(false, false, true, true));

    cpu.registers.d = 0xFF;
    cpu.registers.f.carry = false;
    cpu.execute(Instruction::INC(reg(ArithmeticTarget::D))).unwrap();
    assert_eq!(cpu.registers.d, 0x00);
    assert_eq!(cpu.registers.f, flags(true, false, true, false));
}

#[test]
fn dec_register_keeps_carry() {
    let mut cpu = CPU::default();
    cpu.registers.e = 0x00;
    cpu.registers.f.carry = true;
    cpu.execute(Instruction::DEC(reg(ArithmeticTarget::E))).unwrap();
    assert_eq!(cpu.registers.e, 0xFF);
    assert_eq!(cpu.registers.f, flags(false, true, false, true));

    cpu.registers.e = 0x1F;
    cpu.registers.f.carry = false;
    cpu.execute(Instruction::DEC(reg(ArithmeticTarget::E))).unwrap();
    assert_eq!(cpu.registers.e, 0x1E);
    assert_eq!(cpu.registers.f, flags(false, true, true, false));
}

#[test]
fn inc_and_dec_of_a_pair_touch_no_flag() {
    let mut cpu = CPU::default();
    cpu.registers.set_bc(0xFFFF);
    cpu.registers.f = flags(true, true, true, true);
    cpu.execute(Instruction::INC(Target::Register16(DoubleTarget::BC))).unwrap();
    assert_eq!(cpu.registers.get_bc(), 0x0000);
    assert_eq!(cpu.registers.f, flags(true, true, true, true));

    cpu.registers.f = flags(false, false, false, false);
    cpu.sp = 0x0000;
    cpu.execute(Instruction::DEC(Target::Register16(DoubleTarget::SP))).unwrap();
    assert_eq!(cpu.sp, 0xFFFF);
    assert_eq!(cpu.registers.f, flags(false, false, false, false));

    cpu.registers.set_hl(0x12FF);
    cpu.execute(Instruction::INC(Target::Register16(DoubleTarget::HL))).unwrap();
    assert_eq!(cpu.registers.get_hl(), 0x1300);
    cpu.registers.set_de(0x1300);
    cpu.execute(Instruction::DEC(Target::Register16(DoubleTarget::DE))).unwrap();
    assert_eq!(cpu.registers.get_de(), 0x12FF);
}

#[test]
fn inc_and_dec_of_a_memory_byte() {
    let mut cpu = CPU::default();
    cpu.registers.set_hl(0x2000);
    cpu.bus.write_byte(0x2000, 0xFF);
    cpu.execute(Instruction::INC(Target::MemoryR16(DoubleTarget::HL))).unwrap();
    assert_eq!(cpu.bus.read_byte(0x2000), 0x00);
    assert_eq!(cpu.registers.f, flags(true, false, true, true));

    cpu.execute(Instruction::DEC(Target::MemoryR16(DoubleTarget::HL))).unwrap();
    assert_eq!(cpu.bus.read_byte(0x2000), 0xFF);
    assert_eq!(cpu.registers.f, flags(false, true, false, true));

    cpu.bus.write_byte(0x2000, 0x41);
    cpu.execute(Instruction::INC(Target::MemoryR16(DoubleTarget::HL))).unwrap();
    assert_eq!(cpu.bus.read_byte(0x2000), 0x42);
    assert_eq!(cpu.registers.f, flags(false, false, false, false));
    assert_eq!(cpu.registers.get_hl(), 0x2000);
}

#[test]
fn inc_and_dec_reject_immediates() {
    let mut cpu = CPU::default();
    let inc = Instruction::INC(Target::Const8());
    assert_eq!(
        cpu.execute(inc),
        Err(CpuError::IllegalOperand { instruction: inc, target: Target::Const8() })
    );
    let dec = Instruction::DEC(Target::MemoryR8(ArithmeticTarget::C));
    assert_eq!(
        cpu.execute(dec),
        Err(CpuError::IllegalOperand {
            instruction: dec,
            target: Target::MemoryR8(ArithmeticTarget::C)
        })
    );
}

#[test]
fn carry_flag_instructions() {
    let mut cpu = CPU::default();
    cpu.registers.f = flags(true, true, true, false);
    cpu.execute(Instruction::CCF()).unwrap();
    assert_eq!(cpu.registers.f, flags(true, false, false, true));
    cpu.execute(Instruction::CCF()).unwrap();
    assert_eq!(cpu.registers.f, flags(true, false, false, false));

    cpu.registers.f = flags(false, true, true, false);
    cpu.execute(Instruction::SCF()).unwrap();
    assert_eq!(cpu.registers.f, flags(false, false, false, true));
    cpu.execute(Instruction::SCF()).unwrap();
    assert_eq!(cpu.registers.f, flags(false, false, false, true));
}

#[test]
fn cpl_keeps_zero_and_carry() {
    let mut cpu = CPU::default();
    cpu.registers.a = 0x00;
    cpu.registers.f = flags(true, false, false, true);
    cpu.execute(Instruction::CPL()).unwrap();
    assert_eq!(cpu.registers.a, 0xFF);
    assert_eq!(cpu.registers.f, flags(true, true, true, true));
}

#[test]
fn accumulator_rotations_clear_zero() {
    let mut cpu = CPU::default();
    cpu.registers.a = 0x85;
    cpu.registers.f = flags(true, true, true, false);
    cpu.execute(Instruction::RLCA()).unwrap();
    assert_eq!(cpu.registers.a, 0x0B);
    assert_eq!(cpu.registers.f, flags(false, false, false, true));

    cpu.registers.a = 0x01;
    cpu.execute(Instruction::RRCA()).unwrap();
    assert_eq!(cpu.registers.a, 0x80);
    assert_eq!(cpu.registers.f, flags(false, false, false, true));

    cpu.registers.a = 0x80;
    cpu.registers.f.carry = false;
    cpu.execute(Instruction::RLA()).unwrap();
    assert_eq!(cpu.registers.a, 0x00);
    assert_eq!(cpu.registers.f, flags(false, false, false, true));

    cpu.registers.a = 0x01;
    cpu.registers.f.carry = true;
    cpu.execute(Instruction::RRA()).unwrap();
    assert_eq!(cpu.registers.a, 0x80);
    assert_eq!(cpu.registers.f, flags(false, false, false, true));

    cpu.registers.a = 0x02;
    cpu.registers.f.carry = false;
    cpu.execute(Instruction::RRA()).unwrap();
    assert_eq!(cpu.registers.a, 0x01);
    assert_eq!(cpu.registers.f, flags(false, false, false, false));
}

#[test]
fn register_rotations_store_the_result_and_set_zero() {
    let mut cpu = CPU::default();
    cpu.registers.b = 0x80;
    cpu.execute(Instruction::RL(ArithmeticTarget::B)).unwrap();
    assert_eq!(cpu.registers.b, 0x00);
    assert_eq!(cpu.registers.f, flags(true, false, false, true));
    cpu.execute(Instruction::RL(ArithmeticTarget::B)).unwrap();
    assert_eq!(cpu.registers.b, 0x01);
    assert_eq!(cpu.registers.f, flags(false, false, false, false));

    cpu.registers.c = 0x01;
    cpu.registers.f.carry = true;
    cpu.execute(Instruction::RR(ArithmeticTarget::C)).unwrap();
    assert_eq!(cpu.registers.c, 0x80);
    assert_eq!(cpu.registers.f, flags(false, false, false, true));

    cpu.registers.d = 0x85;
    cpu.execute(Instruction::RLC(ArithmeticTarget::D)).unwrap();
    assert_eq!(cpu.registers.d, 0x0B);
    assert!(cpu.registers.f.carry);

    cpu.registers.e = 0x01;
    cpu.execute(Instruction::RRC(ArithmeticTarget::E)).unwrap();
    assert_eq!(cpu.registers.e, 0x80);
    assert!(cpu.registers.f.carry);

    cpu.registers.e = 0x00;
    cpu.execute(Instruction::RRC(ArithmeticTarget::E)).unwrap();
    assert_eq!(cpu.registers.e, 0x00);
    assert_eq!(cpu.registers.f, flags(true, false, false, false));
}

#[test]
fn shifts_store_the_result() {
    let mut cpu = CPU::default();
    cpu.registers.h = 0xC1;
    cpu.registers.f = flags(false, true, true, false);
    cpu.execute(Instruction::SLA(ArithmeticTarget::H)).unwrap();
    assert_eq!(cpu.registers.h, 0x82);
    assert_eq!(cpu.registers.f, flags(false, false, false, true));

    cpu.registers.l = 0x81;
    cpu.execute(Instruction::SRA(ArithmeticTarget::L)).unwrap();
    assert_eq!(cpu.registers.l, 0xC0);
    assert_eq!(cpu.registers.f, flags(false, false, false, true));

    cpu.registers.l = 0x81;
    cpu.execute(Instruction::SRL(ArithmeticTarget::L)).unwrap();
    assert_eq!(cpu.registers.l, 0x40);
    assert_eq!(cpu.registers.f, flags(false, false, false, true));

    cpu.registers.l = 0x01;
    cpu.execute(Instruction::SRL(ArithmeticTarget::L)).unwrap();
    assert_eq!(cpu.registers.l, 0x00);
    assert_eq!(cpu.registers.f, flags(true, false, false, true));

    cpu.registers.l = 0x80;
    cpu.execute(Instruction::SLA(ArithmeticTarget::L)).unwrap();
    assert_eq!(cpu.registers.l, 0x00);
    assert_eq!(cpu.registers.f, flags(true, false, false, true));

    cpu.registers.l = 0x7E;
    cpu.execute(Instruction::SRA(ArithmeticTarget::L)).unwrap();
    assert_eq!(cpu.registers.l, 0x3F);
    assert_eq!(cpu.registers.f, flags(false, false, false, false));
}

#[test]
fn swap_exchanges_nibbles() {
    let mut cpu = CPU::default();
    cpu.registers.b = 0xAB;
    cpu.registers.f = flags(true, true, true, true);
    cpu.execute(Instruction::SWAP(ArithmeticTarget::B)).unwrap();
    assert_eq!(cpu.registers.b, 0xBA);
    assert_eq!(cpu.registers.f, flags(false, false, false, false));

    cpu.registers.b = 0x00;
    cpu.execute(Instruction::SWAP(ArithmeticTarget::B)).unwrap();
    assert_eq!(cpu.registers.b, 0x00);
    assert_eq!(cpu.registers.f, flags(true, false, false, false));
}

#[test]
fn bit_tests_without_changing_the_operand() {
    let mut cpu = CPU::default();
    cpu.registers.a = 0b1000_0000;
    cpu.registers.f = flags(false, true, false, true);
    cpu.execute(Instruction::BIT(7, reg(ArithmeticTarget::A))).unwrap();
    assert_eq!(cpu.registers.f, flags(false, false, true, true));
    cpu.execute(Instruction::BIT(6, reg(ArithmeticTarget::A))).unwrap();
    assert_eq!(cpu.registers.f, flags(true, false, true, true));
    cpu.execute(Instruction::BIT(0, reg(ArithmeticTarget::A))).unwrap();
    assert!(cpu.registers.f.zero);
    assert_eq!(cpu.registers.a, 0b1000_0000);
}

#[test]
fn bit_on_a_memory_byte() {
    let mut cpu = CPU::default();
    cpu.registers.set_hl(0x2000);
    cpu.bus.write_byte(0x2000, 0b0000_0100);
    cpu.execute(Instruction::BIT(2, Target::MemoryR16(DoubleTarget::HL))).unwrap();
    assert_eq!(cpu.registers.f, flags(false, false, true, false));
    cpu.execute(Instruction::BIT(3, Target::MemoryR16(DoubleTarget::HL))).unwrap();
    assert_eq!(cpu.registers.f, flags(true, false, true, false));
    assert_eq!(cpu.bus.read_byte(0x2000), 0b0000_0100);
}

#[test]
fn a_byte_has_no_bit_above_seven() {
    let mut cpu = CPU::default();
    cpu.registers.a = 0xFF;
    cpu.registers.b = 0x01;
    cpu.execute(Instruction::BIT(8, reg(ArithmeticTarget::A))).unwrap();
    assert!(cpu.registers.f.zero);
    cpu.execute(Instruction::BIT(200, reg(ArithmeticTarget::A))).unwrap();
    assert!(cpu.registers.f.zero);
    cpu.execute(Instruction::SET(8, ArithmeticTarget::B)).unwrap();
    assert_eq!(cpu.registers.b, 0x01);
    cpu.execute(Instruction::SET(255, ArithmeticTarget::B)).unwrap();
    assert_eq!(cpu.registers.b, 0x01);
}

#[test]
fn bit_rejects_a_pair() {
    let mut cpu = CPU::default();
    let instruction = Instruction::BIT(1, Target::Register16(DoubleTarget::DE));
    assert_eq!(
        cpu.execute(instruction),
        Err(CpuError::IllegalOperand { instruction, target: Target::Register16(DoubleTarget::DE) })
    );
}

#[test]
fn set_leaves_the_flags() {
    let mut cpu = CPU::default();
    cpu.registers.f = flags(true, true, true, true);
    cpu.execute(Instruction::SET(3, ArithmeticTarget::B)).unwrap();
    assert_eq!(cpu.registers.b, 0x08);
    cpu.execute(Instruction::SET(7, ArithmeticTarget::B)).unwrap();
    assert_eq!(cpu.registers.b, 0x88);
    cpu.execute(Instruction::SET(3, ArithmeticTarget::B)).unwrap();
    assert_eq!(cpu.registers.b, 0x88);
    cpu.execute(Instruction::SET(0, ArithmeticTarget::L)).unwrap();
    assert_eq!(cpu.registers.l, 0x01);
    assert_eq!(cpu.registers.f, flags(true, true, true, true));
}

#[test]
fn reset_tests_bit_zero() {
    let mut cpu = CPU::default();
    cpu.registers.b = 0x01;
    cpu.registers.f = flags(true, true, false, true);
    cpu.execute(Instruction::RESET(ArithmeticTarget::B)).unwrap();
    assert_eq!(cpu.registers.b, 0x01);
    assert_eq!(cpu.registers.f, flags(false, false, true, true));
    cpu.registers.b = 0xFE;
    cpu.execute(Instruction::RESET(ArithmeticTarget::B)).unwrap();
    assert_eq!(cpu.registers.f, flags(true, false, true, true));
}

#[test]
fn ld_sixteen_bit_immediate_is_little_endian() {
    let mut cpu = CPU::default();
    cpu.pc = 0x0100;
    cpu.bus.write_byte(0x0101, 0x34);
    cpu.bus.write_byte(0x0102, 0x12);
    let next =
        cpu.execute(Instruction::LD(Target::Register16(DoubleTarget::HL), Target::Const16()));
    assert_eq!(next, Ok(0x0103));
    assert_eq!(cpu.registers.get_hl(), 0x1234);
    assert_eq!(cpu.registers.h, 0x12);
    assert_eq!(cpu.registers.l, 0x34);
}

#[test]
fn ld_through_an_immediate_address() {
    let mut cpu = CPU::default();
    cpu.bus.write_byte(0x0001, 0x00);
    cpu.bus.write_byte(0x0002, 0x20);
    cpu.bus.write_byte(0x2000, 0x77);
    let next = cpu.execute(Instruction::LD(reg(ArithmeticTarget::A), Target::MemoryConst16()));
    assert_eq!(next, Ok(3));
    assert_eq!(cpu.registers.a, 0x77);
}

#[test]
fn ld_eight_bit_immediate() {
    let mut cpu = CPU::default();
    cpu.bus.write_byte(0x0001, 0x99);
    let next = cpu.execute(Instruction::LD(reg(ArithmeticTarget::B), Target::Const8()));
    assert_eq!(next, Ok(2));
    assert_eq!(cpu.registers.b, 0x99);
}

#[test]
fn ld_to_and_from_memory() {
    let mut cpu = CPU::default();
    cpu.registers.a = 0x5A;
    cpu.registers.set_hl(0x8000);
    cpu.execute(Instruction::LD(Target::MemoryR16(DoubleTarget::HL), reg(ArithmeticTarget::A)))
        .unwrap();
    assert_eq!(cpu.bus.read_byte(0x8000), 0x5A);
    cpu.execute(Instruction::LD(reg(ArithmeticTarget::D), Target::MemoryR16(DoubleTarget::HL)))
        .unwrap();
    assert_eq!(cpu.registers.d, 0x5A);

    cpu.sp = 0xFFFF;
    cpu.execute(Instruction::LD(Target::MemoryR16(DoubleTarget::SP), reg(ArithmeticTarget::A)))
        .unwrap();
    assert_eq!(cpu.bus.read_byte(0xFFFF), 0x5A);

    cpu.registers.c = 0x10;
    cpu.execute(Instruction::LD(Target::MemoryR8(ArithmeticTarget::C), reg(ArithmeticTarget::A)))
        .unwrap();
    assert_eq!(cpu.bus.read_byte(0x0010), 0x5A);
    cpu.execute(Instruction::LD(reg(ArithmeticTarget::E), Target::MemoryR8(ArithmeticTarget::C)))
        .unwrap();
    assert_eq!(cpu.registers.e, 0x5A);
}

#[test]
fn ld_between_registers_of_different_width() {
    let mut cpu = CPU::default();
    cpu.registers.set_bc(0x1234);
    cpu.execute(Instruction::LD(reg(ArithmeticTarget::A), Target::Register16(DoubleTarget::BC)))
        .unwrap();
    assert_eq!(cpu.registers.a, 0x34);
    cpu.execute(Instruction::LD(Target::Register16(DoubleTarget::DE), reg(ArithmeticTarget::A)))
        .unwrap();
    assert_eq!(cpu.registers.get_de(), 0x0034);
    cpu.registers.set_hl(0xBEEF);
    cpu.execute(Instruction::LD(
        Target::Register16(DoubleTarget::SP),
        Target::Register16(DoubleTarget::HL),
    ))
    .unwrap();
    assert_eq!(cpu.sp, 0xBEEF);
}

#[test]
fn ld_touches_no_flag() {
    let mut cpu = CPU::default();
    cpu.registers.f = flags(true, false, true, false);
    cpu.execute(Instruction::LD(reg(ArithmeticTarget::A), reg(ArithmeticTarget::B))).unwrap();
    assert_eq!(cpu.registers.a, 0);
    assert_eq!(cpu.registers.f, flags(true, false, true, false));
}

#[test]
fn ld_rejects_an_immediate_destination() {
    let mut cpu = CPU::default();
    cpu.registers.a = 3;
    for target in [Target::Const8(), Target::Const16(), Target::MemoryConst16()] {
        let instruction = Instruction::LD(target, reg(ArithmeticTarget::A));
        assert_eq!(cpu.execute(instruction), Err(CpuError::IllegalOperand { instruction, target }));
    }
    assert_eq!(cpu.bus.read_byte(0), 0);
    assert_eq!(cpu.registers.a, 3);
}

#[test]
fn nop_changes_nothing() {
    let mut cpu = CPU::default();
    cpu.pc = 0xFFFF;
    cpu.registers.a = 4;
    cpu.registers.f = flags(true, true, true, true);
    assert_eq!(cpu.execute(Instruction::NOP()), Ok(0x0000));
    assert_eq!(cpu.pc, 0xFFFF);
    assert_eq!(cpu.registers.a, 4);
    assert_eq!(cpu.registers.f, flags(true, true, true, true));
}

#[test]
fn stop_is_unimplemented() {
    let mut cpu = CPU::default();
    cpu.pc = 0x0042;
    assert_eq!(
        cpu.execute(Instruction::STOP()),
        Err(CpuError::Unimplemented { instruction: Instruction::STOP(), address: 0x0042 })
    );
    assert_eq!(cpu.pc, 0x0042);
}

#[test]
fn daa_after_addition() {
    let mut cpu = CPU::default();
    cpu.registers.a = 0x9A;
    cpu.execute(Instruction::DAA()).unwrap();
    assert_eq!(cpu.registers.a, 0x00);
    assert_eq!(cpu.registers.f, flags(true, false, false, true));

    cpu.registers.a = 0x45;
    cpu.registers.f = flags(false, false, false, false);
    cpu.execute(Instruction::DAA()).unwrap();
    assert_eq!(cpu.registers.a, 0x45);
    assert_eq!(cpu.registers.f, flags(false, false, false, false));

    cpu.registers.a = 0x10;
    cpu.registers.f = flags(false, false, false, true);
    cpu.execute(Instruction::DAA()).unwrap();
    assert_eq!(cpu.registers.a, 0x70);
    assert_eq!(cpu.registers.f, flags(false, false, false, true));

    cpu.registers.a = 0xA0;
    cpu.registers.f = flags(false, false, true, false);
    cpu.execute(Instruction::DAA()).unwrap();
    assert_eq!(cpu.registers.a, 0x06);
    assert_eq!(cpu.registers.f, flags(false, false, false, true));
}

#[test]
fn daa_after_subtraction() {
    let mut cpu = CPU::default();
    cpu.registers.a = 0x0F;
    cpu.registers.f = flags(false, true, true, false);
    cpu.execute(Instruction::DAA()).unwrap();
    assert_eq!(cpu.registers.a, 0x09);
    assert_eq!(cpu.registers.f, flags(false, true, false, false));

    cpu.registers.a = 0x20;
    cpu.registers.f = flags(false, true, false, true);
    cpu.execute(Instruction::DAA()).unwrap();
    assert_eq!(cpu.registers.a, 0xC0);
    assert_eq!(cpu.registers.f, flags(false, true, false, true));

    cpu.registers.a = 0x66;
    cpu.registers.f = flags(false, true, true, true);
    cpu.execute(Instruction::DAA()).unwrap();
    assert_eq!(cpu.registers.a, 0x00);
    assert_eq!(cpu.registers.f, flags(true, true, false, true));

    cpu.registers.a = 0xFF;
    cpu.registers.f = flags(false, true, false, false);
    cpu.execute(Instruction::DAA()).unwrap();
    assert_eq!(cpu.registers.a, 0xFF);
    assert_eq!(cpu.registers.f, flags(false, true, false, false));
}

#[test]
fn jump_not_taken_skips_three_bytes() {
    let mut cpu = CPU::default();
    cpu.registers.f.zero = true;
    cpu.bus.write_byte(0x0001, 0x34);
    cpu.bus.write_byte(0x0002, 0x12);
    assert_eq!(cpu.execute(Instruction::JP(JumpCondition::NotZero, 0)), Ok(3));
    assert_eq!(cpu.pc, 0);
    assert_eq!(cpu.execute(Instruction::JP(JumpCondition::NotZero, 0x4000)), Ok(3));
    assert_eq!(cpu.pc, 0);
    assert_eq!(cpu.execute(Instruction::JP(JumpCondition::Carry, 0x4000)), Ok(3));
    cpu.registers.f = flags(false, false, false, true);
    assert_eq!(cpu.execute(Instruction::JP(JumpCondition::NotCarry, 0x4000)), Ok(3));
    assert_eq!(cpu.execute(Instruction::JP(JumpCondition::Zero, 0x4000)), Ok(3));
    assert_eq!(cpu.pc, 0);
}

#[test]
fn jump_taken_whatever_the_flags() {
    for bits in 0u8..16 {
        let mut cpu = CPU::default();
        cpu.registers.f = flags(bits & 1 != 0, bits & 2 != 0, bits & 4 != 0, bits & 8 != 0);
        assert_eq!(cpu.execute(Instruction::JP(JumpCondition::Always, 0x1234)), Ok(0x1234));
        assert_eq!(cpu.pc, 0x1234);
    }
}

#[test]
fn jump_to_the_immediate_address() {
    let mut cpu = CPU::default();
    cpu.pc = 0x0200;
    cpu.bus.write_byte(0x0201, 0xCD);
    cpu.bus.write_byte(0x0202, 0xAB);
    assert_eq!(cpu.execute(Instruction::JP(JumpCondition::Always, 0)), Ok(0xABCD));
    assert_eq!(cpu.pc, 0xABCD);
}

#[test]
fn conditional_jumps_follow_their_flag() {
    let mut cpu = CPU::default();
    cpu.registers.f = flags(true, false, false, false);
    assert_eq!(cpu.execute(Instruction::JP(JumpCondition::Zero, 0x0100)), Ok(0x0100));
    cpu.registers.f = flags(false, false, false, true);
    assert_eq!(cpu.execute(Instruction::JP(JumpCondition::Carry, 0x0200)), Ok(0x0200));
    cpu.registers.f = flags(false, false, false, false);
    assert_eq!(cpu.execute(Instruction::JP(JumpCondition::NotCarry, 0x0300)), Ok(0x0300));
    assert_eq!(cpu.execute(Instruction::JP(JumpCondition::NotZero, 0x0400)), Ok(0x0400));
    assert_eq!(cpu.pc, 0x0400);
}

#[test]
fn step_runs_a_small_program() {
    let mut cpu = CPU::default();
    let program: [u8; 9] = [0x3E, 0x05, 0x06, 0x03, 0x80, 0xC3, 0x00, 0x20, 0x00];
    let mut address: u16 = 0;
    for byte in program {
        cpu.bus.write_byte(address, byte);
        address += 1;
    }
    assert_eq!(cpu.step(), Ok(()));
    assert_eq!((cpu.registers.a, cpu.pc), (0x05, 2));
    assert_eq!(cpu.step(), Ok(()));
    assert_eq!((cpu.registers.b, cpu.pc), (0x03, 4));
    assert_eq!(cpu.step(), Ok(()));
    assert_eq!((cpu.registers.a, cpu.pc), (0x08, 5));
    assert_eq!(cpu.step(), Ok(()));
    assert_eq!(cpu.pc, 0x2000);
    assert_eq!(cpu.step(), Ok(()));
    assert_eq!(cpu.pc, 0x2001);
}

#[test]
fn step_conditional_jump_not_taken() {
    let mut cpu = CPU::default();
    cpu.registers.f.zero = true;
    cpu.bus.write_byte(0x0000, 0xC2);
    cpu.bus.write_byte(0x0001, 0x34);
    cpu.bus.write_byte(0x0002, 0x12);
    assert_eq!(cpu.step(), Ok(()));
    assert_eq!(cpu.pc, 3);
    cpu.registers.f.zero = false;
    cpu.pc = 0;
    assert_eq!(cpu.step(), Ok(()));
    assert_eq!(cpu.pc, 0x1234);
}

#[test]
fn step_wraps_the_program_counter() {
    let mut cpu = CPU::default();
    cpu.pc = 0xFFFF;
    assert_eq!(cpu.step(), Ok(()));
    assert_eq!(cpu.pc, 0x0000);
}

#[test]
fn step_reports_an_unrecognized_opcode() {
    for opcode in [0xD3u8, 0xDB, 0xDD, 0xE3, 0xE4, 0xEB, 0xEC, 0xED, 0xF4, 0xFC, 0xFD] {
        let mut cpu = CPU::default();
        cpu.pc = 0x0123;
        cpu.registers.a = 0x11;
        cpu.bus.write_byte(0x0123, opcode);
        assert_eq!(cpu.step(), Err(CpuError::UnrecognizedOpcode { opcode, address: 0x0123 }));
        assert_eq!(cpu.pc, 0x0123);
        assert_eq!(cpu.registers.a, 0x11);
        assert_eq!(cpu.registers.f, flags(false, false, false, false));
    }
}

#[test]
fn step_reports_the_extended_prefix() {
    let mut cpu = CPU::default();
    cpu.pc = 0x0010;
    cpu.bus.write_byte(0x0010, 0xCB);
    cpu.bus.write_byte(0x0011, 0x7C);
    assert_eq!(cpu.step(), Err(CpuError::UnimplementedPrefix { opcode: 0x7C, address: 0x0010 }));
    assert_eq!(cpu.pc, 0x0010);
}

#[test]
fn step_reports_stop_as_unimplemented() {
    let mut cpu = CPU::default();
    cpu.bus.write_byte(0x0000, 0x10);
    assert_eq!(
        cpu.step(),
        Err(CpuError::Unimplemented { instruction: Instruction::STOP(), address: 0 })
    );
    assert_eq!(cpu.pc, 0);
}

#[test]
fn step_memory_instructions() {
    let mut cpu = CPU::default();
    cpu.registers.set_hl(0x3000);
    cpu.registers.a = 0x0F;
    cpu.bus.write_byte(0x0000, 0x77);
    cpu.bus.write_byte(0x0001, 0x34);
    cpu.bus.write_byte(0x0002, 0xA6);
    cpu.bus.write_byte(0x0003, 0x23);
    assert_eq!(cpu.step(), Ok(()));
    assert_eq!(cpu.bus.read_byte(0x3000), 0x0F);
    assert_eq!(cpu.step(), Ok(()));
    assert_eq!(cpu.bus.read_byte(0x3000), 0x10);
    assert!(cpu.registers.f.half_carry);
    assert_eq!(cpu.step(), Ok(()));
    assert_eq!(cpu.registers.a, 0x00);
    assert_eq!(cpu.registers.f, flags(true, false, true, false));
    assert_eq!(cpu.step(), Ok(()));
    assert_eq!(cpu.registers.get_hl(), 0x3001);
    assert_eq!(cpu.pc, 4);
}
