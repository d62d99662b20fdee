use emulator_core::cpu::instruction::{
    ArithmeticSource, DestinationRegister, Instruction, JumpTest, LoadByteSource, LoadByteTarget,
    LoadType, LoadWordTarget,
};
use emulator_core::cpu::{Cpu, RegisterWork};

fn cpu_with_program(program: &[u8]) -> Cpu {
    let mut rom = vec![0u8; 0x8000];
    rom[0x100..0x100 + program.len()].copy_from_slice(program);
    Cpu::new(rom)
}

#[test]
fn test_power_on_state() {
    let cpu = Cpu::new(vec![0xAB, 0xCD]);
    assert_eq!(cpu.pc, 0x0100);
    assert_eq!(cpu.sp, 0xFFFE);
    assert_eq!(cpu.registers.a, 0x01);
    assert_eq!(cpu.registers.b, 0xFF);
    assert_eq!(cpu.registers.c, 0x13);
    assert_eq!(cpu.registers.d, 0x00);
    assert_eq!(cpu.registers.e, 0xC1);
    assert_eq!(cpu.registers.h, 0x84);
    assert_eq!(cpu.registers.l, 0x03);
    assert!(!cpu.registers.f.zero && !cpu.registers.f.carry);
    assert_eq!(cpu.memory_bus.read_byte(0), 0xAB);
    assert_eq!(cpu.memory_bus.read_byte(1), 0xCD);
    assert_eq!(cpu.memory_bus.read_byte(2), 0x00);
    assert_eq!(cpu.memory_bus.read_byte(0xFFFF), 0x00);
}

#[test]
fn test_decode_covers_implemented_opcodes() {
    let known = (0u16..=0xFF).filter(|op| Cpu::try_decode(*op as u8).is_some()).count();
    assert_eq!(known, 110);
    assert!(Cpu::try_decode(0x76).is_none());
    assert!(Cpu::try_decode(0xD3).is_none());
    assert!(matches!(
        Cpu::try_decode(0x46),
        Some(Instruction::LD(LoadType::Byte(LoadByteTarget::B, LoadByteSource::HLI)))
    ));
    assert!(matches!(
        Cpu::try_decode(0x31),
        Some(Instruction::LD(LoadType::Word(LoadWordTarget::SP)))
    ));
    assert!(matches!(Cpu::try_decode(0x35), Some(Instruction::DEC(ArithmeticSource::HLI))));
    assert!(matches!(Cpu::try_decode(0x38), Some(Instruction::JR(JumpTest::Carry))));
    assert!(matches!(Cpu::try_decode(0xAE), Some(Instruction::XOR(ArithmeticSource::HLI))));
    assert!(matches!(Cpu::try_decode(0xFE), Some(Instruction::CP(ArithmeticSource::D8))));
    let cpu = cpu_with_program(&[]);
    assert!(matches!(cpu.decode(0x81), Instruction::ADD(ArithmeticSource::C)));
}

#[test]
fn test_step_nop() {
    let mut cpu = cpu_with_program(&[0x00]);
    assert_eq!(cpu.step(), 4);
    assert_eq!(cpu.pc, 0x101);
}

#[test]
fn test_step_load_immediate_byte() {
    let mut cpu = cpu_with_program(&[0x3E, 0x42]);
    assert_eq!(cpu.step(), 8);
    assert_eq!(cpu.registers.a, 0x42);
    assert_eq!(cpu.pc, 0x102);
}

#[test]
fn test_step_load_register_to_register() {
    let mut cpu = cpu_with_program(&[0x78]);
    cpu.registers.b = 0x99;
    assert_eq!(cpu.step(), 4);
    assert_eq!(cpu.registers.a, 0x99);
    assert_eq!(cpu.pc, 0x101);
}

#[test]
fn test_step_load_word() {
    let mut cpu = cpu_with_program(&[0x21, 0x34, 0x12, 0x31, 0xCD, 0xAB]);
    assert_eq!(cpu.step(), 12);
    assert_eq!(cpu.registers.get_hl(), 0x1234);
    assert_eq!(cpu.pc, 0x103);
    assert_eq!(cpu.step(), 12);
    assert_eq!(cpu.sp, 0xABCD);
    assert_eq!(cpu.pc, 0x106);
}

#[test]
fn test_step_store_a_and_decrement_hl() {
    let mut cpu = cpu_with_program(&[0x32]);
    cpu.registers.set_hl(0xC000);
    cpu.registers.a = 0x07;
    assert_eq!(cpu.step(), 8);
    assert_eq!(cpu.memory_bus.read_byte(0xC000), 0x07);
    assert_eq!(cpu.registers.get_hl(), 0xBFFF);
    assert_eq!(cpu.pc, 0x101);
}

#[test]
fn test_step_load_into_and_from_hl() {
    let mut cpu = cpu_with_program(&[0x36, 0x5A, 0x4E]);
    cpu.registers.set_hl(0xD000);
    assert_eq!(cpu.step(), 8);
    assert_eq!(cpu.memory_bus.read_byte(0xD000), 0x5A);
    assert_eq!(cpu.pc, 0x102);
    assert_eq!(cpu.step(), 8);
    assert_eq!(cpu.registers.c, 0x5A);
    assert_eq!(cpu.pc, 0x103);
}

#[test]
fn test_step_decrement_register() {
    let mut cpu = cpu_with_program(&[0x05, 0x05]);
    cpu.registers.b = 0x01;
    cpu.registers.f.carry = true;
    assert_eq!(cpu.step(), 4);
    assert_eq!(cpu.registers.b, 0x00);
    assert!(cpu.registers.f.zero);
    assert!(cpu.registers.f.subtract);
    assert!(!cpu.registers.f.half_carry);
    assert!(cpu.registers.f.carry, "decrement keeps the carry flag");
    assert_eq!(cpu.step(), 4);
    assert_eq!(cpu.registers.b, 0xFF);
    assert!(!cpu.registers.f.zero);
    assert!(cpu.registers.f.half_carry);
    assert_eq!(cpu.pc, 0x102);
}

#[test]
fn test_step_decrement_memory() {
    let mut cpu = cpu_with_program(&[0x35]);
    cpu.registers.set_hl(0xC123);
    cpu.memory_bus.write_byte(0xC123, 0x10);
    assert_eq!(cpu.step(), 12);
    assert_eq!(cpu.memory_bus.read_byte(0xC123), 0x0F);
    assert!(cpu.registers.f.half_carry);
    assert!(!cpu.registers.f.zero);
    assert_eq!(cpu.pc, 0x101);
}

#[test]
fn test_step_add_c() {
    let mut cpu = cpu_with_program(&[0x81]);
    cpu.registers.a = 0x3A;
    cpu.registers.c = 0xC6;
    assert_eq!(cpu.step(), 4);
    assert_eq!(cpu.registers.a, 0x00);
    assert!(cpu.registers.f.zero);
    assert!(cpu.registers.f.carry);
    assert!(cpu.registers.f.half_carry);
    assert!(!cpu.registers.f.subtract);
}

#[test]
fn test_step_xor_immediate_and_memory() {
    let mut cpu = cpu_with_program(&[0xEE, 0x0F, 0xAE]);
    cpu.registers.a = 0xF0;
    cpu.registers.set_hl(0xC000);
    cpu.memory_bus.write_byte(0xC000, 0xFF);
    assert_eq!(cpu.step(), 8);
    assert_eq!(cpu.registers.a, 0xFF);
    assert_eq!(cpu.pc, 0x102);
    assert_eq!(cpu.step(), 8);
    assert_eq!(cpu.registers.a, 0x00);
    assert!(cpu.registers.f.zero);
    assert_eq!(cpu.pc, 0x103);
}

#[test]
fn test_step_compare() {
    let mut cpu = cpu_with_program(&[0xFE, 0x07, 0xB8]);
    cpu.registers.a = 0x05;
    cpu.registers.b = 0x05;
    assert_eq!(cpu.step(), 8);
    assert_eq!(cpu.registers.a, 0x05, "compare leaves A alone");
    assert!(!cpu.registers.f.zero);
    assert!(cpu.registers.f.subtract);
    assert!(cpu.registers.f.half_carry);
    assert!(cpu.registers.f.carry);
    assert_eq!(cpu.pc, 0x102);
    assert_eq!(cpu.step(), 4);
    assert!(cpu.registers.f.zero);
    assert!(!cpu.registers.f.carry);
    assert!(!cpu.registers.f.half_carry);
    assert_eq!(cpu.pc, 0x103);
}

#[test]
fn test_step_absolute_jump() {
    let mut cpu = cpu_with_program(&[0xC3, 0x50, 0x01]);
    assert_eq!(cpu.step(), 16);
    assert_eq!(cpu.pc, 0x0150);
}

#[test]
fn test_step_relative_jumps() {
    let mut cpu = cpu_with_program(&[0x18, 0xFE]);
    assert_eq!(cpu.step(), 12);
    assert_eq!(cpu.pc, 0x100, "JR -2 jumps back onto itself");

    let mut cpu = cpu_with_program(&[0x20, 0x05]);
    cpu.registers.f.zero = false;
    assert_eq!(cpu.step(), 12);
    assert_eq!(cpu.pc, 0x107);

    let mut cpu = cpu_with_program(&[0x28, 0x05]);
    cpu.registers.f.zero = false;
    assert_eq!(cpu.step(), 8);
    assert_eq!(cpu.pc, 0x102);

    let mut cpu = cpu_with_program(&[0x38, 0x7F]);
    cpu.registers.f.carry = true;
    assert_eq!(cpu.step(), 12);
    assert_eq!(cpu.pc, 0x181);
}

#[test]
fn test_can_step() {
    let cpu = cpu_with_program(&[0x76]);
    assert!(!cpu.can_step());
    let cpu = cpu_with_program(&[0x18, 0x80]);
    assert!(!cpu.can_step(), "a taken jump by -128 is refused");
    let mut cpu = cpu_with_program(&[0x28, 0x80]);
    cpu.registers.f.zero = false;
    assert!(cpu.can_step(), "a relative jump not taken is fine");
    let cpu = cpu_with_program(&[0x00]);
    assert!(cpu.can_step());
}

#[test]
fn test_is_executable() {
    let cpu = cpu_with_program(&[]);
    assert!(cpu.is_executable(&Instruction::ADD(ArithmeticSource::C)));
    assert!(!cpu.is_executable(&Instruction::ADD(ArithmeticSource::B)));
    assert!(!cpu.is_executable(&Instruction::DEC(ArithmeticSource::D8)));
    assert!(cpu.is_executable(&Instruction::DEC(ArithmeticSource::HLI)));
}

#[test]
fn test_run_cycles_over_nops() {
    let mut cpu = cpu_with_program(&[]);
    assert_eq!(cpu.run_cycles(100), Ok(100));
    assert_eq!(cpu.pc, 0x100 + 25);
    assert_eq!(cpu.run_cycles(0), Ok(0));
    assert_eq!(cpu.run_cycles(6), Ok(8));
}

#[test]
fn test_run_cycles_stops_at_unknown_opcode() {
    let mut cpu = cpu_with_program(&[0x00, 0x3E, 0x01, 0xD3]);
    assert_eq!(cpu.run_cycles(1000), Err(12));
    assert_eq!(cpu.pc, 0x103);
    assert_eq!(cpu.registers.a, 0x01);
}

#[test]
fn test_execute_leaves_pc() {
    let mut cpu = cpu_with_program(&[]);
    cpu.registers.a = 0x12;
    let next = cpu.execute(Instruction::XOR(ArithmeticSource::A));
    assert_eq!(next, (0x101, 4));
    assert_eq!(cpu.pc, 0x100);
    assert_eq!(cpu.registers.a, 0);
    assert!(cpu.registers.f.zero);
}

#[test]
fn test_manipulate_8bit_register() {
    let mut cpu = cpu_with_program(&[]);
    cpu.registers.a = 0x0F;
    cpu.manipulate_8bit_register(DestinationRegister::E, 0xF0, RegisterWork::ExclusiveOr);
    assert_eq!(cpu.registers.e, 0xFF);
    assert_eq!(cpu.registers.a, 0x0F);
    cpu.manipulate_8bit_register(DestinationRegister::H, 0x00, RegisterWork::Decrement);
    assert_eq!(cpu.registers.h, 0xFF);
    assert!(cpu.registers.f.subtract);
    assert!(cpu.registers.f.half_carry);
}

#[test]
fn test_operand_reads() {
    let mut cpu = cpu_with_program(&[0x00, 0x34, 0x12]);
    cpu.registers.set_hl(0xC000);
    cpu.memory_bus.write_byte(0xC000, 0x77);
    assert_eq!(cpu.get_value_from_source(ArithmeticSource::HLI), 0x77);
    assert_eq!(cpu.get_value_from_source(ArithmeticSource::D8), 0x34);
    assert_eq!(cpu.read_next_word(), 0x1234);
    assert_eq!(cpu.jump(true), (0x1234, 16));
    assert_eq!(cpu.jump(false), (0x103, 12));
    assert_eq!(cpu.jump_relative(false), (0x102, 8));
    assert_eq!(cpu.jump_relative(true), (0x102 + 0x34, 12));
}

#[test]
fn test_dec_and_compare_methods() {
    let mut cpu = cpu_with_program(&[]);
    cpu.registers.f.carry = true;
    assert_eq!(cpu.dec(0x00), 0xFF);
    assert!(cpu.registers.f.carry);
    assert!(!cpu.registers.f.zero);
    cpu.registers.a = 0x10;
    cpu.compare(0x01);
    assert!(cpu.registers.f.half_carry);
    assert!(!cpu.registers.f.carry);
    assert!(!cpu.registers.f.zero);
    assert_eq!(cpu.registers.a, 0x10);
}
