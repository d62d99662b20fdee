use emulator_core::cpu::Cpu;

fn setup_cpu() -> Cpu {
    Cpu::new(vec![0; 0x8000]) // Dummy ROM of 32KB
}

#[test]
fn test_add_normal() {
    let mut cpu = setup_cpu();
    cpu.registers.a = 0x05;
    cpu.registers.c = 0x03;
    let result = cpu.add(cpu.registers.c);
    assert_eq!(result, 0x08, "A + C should equal 0x08");
    assert_eq!(cpu.registers.a, 0x05, "A should not change in add method");
    assert!(!cpu.registers.f.zero, "Zero flag should not be set");
    assert!(!cpu.registers.f.subtract, "Subtract flag should not be set");
    assert!(!cpu.registers.f.carry, "Carry flag should not be set");
    assert!(
        !cpu.registers.f.half_carry,
        "Half-carry flag should not be set"
    );
}

#[test]
fn test_add_zero_flag() {
    let mut cpu = setup_cpu();
    cpu.registers.a = 0x00;
    cpu.registers.c = 0x00;
    let result = cpu.add(cpu.registers.c);
    assert_eq!(result, 0x00, "A + C should equal 0x00");
    assert_eq!(cpu.registers.a, 0x00, "A should not change in add method");
    assert!(cpu.registers.f.zero, "Zero flag should be set");
    assert!(!cpu.registers.f.subtract, "Subtract flag should not be set");
    assert!(!cpu.registers.f.carry, "Carry flag should not be set");
    assert!(
        !cpu.registers.f.half_carry,
        "Half-carry flag should not be set"
    );
}

#[test]
fn test_add_carry_flag() {
    let mut cpu = setup_cpu();
    cpu.registers.a = 0xFF;
    cpu.registers.c = 0x01;
    let result = cpu.add(cpu.registers.c);
    assert_eq!(result, 0x00, "A + C should wrap to 0x00");
    assert_eq!(cpu.registers.a, 0xFF, "A should not change in add method");
    assert!(cpu.registers.f.zero, "Zero flag should be set");
    assert!(!cpu.registers.f.subtract, "Subtract flag should not be set");
    assert!(cpu.registers.f.carry, "Carry flag should be set");
    assert!(cpu.registers.f.half_carry, "Half-carry flag should be set");
}

#[test]
fn test_add_carry_flag_rollover() {
    let mut cpu = setup_cpu();
    cpu.registers.a = 0xFF;
    cpu.registers.c = 0x02;
    let result = cpu.add(cpu.registers.c);
    assert_eq!(result, 0x01, "A + C should wrap to 0x01");
    assert_eq!(cpu.registers.a, 0xFF, "A should not change in add method");
    assert!(!cpu.registers.f.zero, "Zero flag should not be set");
    assert!(!cpu.registers.f.subtract, "Subtract flag should not be set");
    assert!(cpu.registers.f.carry, "Carry flag should be set");
    assert!(cpu.registers.f.half_carry, "Half-carry flag should be set");
}

#[test]
fn test_add_half_carry_flag() {
    let mut cpu = setup_cpu();
    cpu.registers.a = 0x0F;
    cpu.registers.c = 0x01;
    let result = cpu.add(cpu.registers.c);
    assert_eq!(result, 0x10, "A + C should equal 0x10");
    assert_eq!(cpu.registers.a, 0x0F, "A should not change in add method");
    assert!(!cpu.registers.f.zero, "Zero flag should not be set");
    assert!(!cpu.registers.f.subtract, "Subtract flag should not be set");
    assert!(!cpu.registers.f.carry, "Carry flag should not be set");
    assert!(cpu.registers.f.half_carry, "Half-carry flag should be set");
}

#[test]
fn test_add_combined_flags() {
    let mut cpu = setup_cpu();
    cpu.registers.a = 0xFF;
    cpu.registers.c = 0xFF;
    let result = cpu.add(cpu.registers.c);
    assert_eq!(result, 0xFE, "A + C should wrap to 0xFE");
    assert_eq!(cpu.registers.a, 0xFF, "A should not change in add method");
    assert!(!cpu.registers.f.zero, "Zero flag should not be set");
    assert!(!cpu.registers.f.subtract, "Subtract flag should not be set");
    assert!(cpu.registers.f.carry, "Carry flag should be set");
    assert!(cpu.registers.f.half_carry, "Half-carry flag should be set");
}

#[test]
fn test_xor_normal() {
    let mut cpu = setup_cpu();
    cpu.registers.a = 0b11110000;
    let value = 0b10101010;
    let result = cpu.xor(value);
    assert_eq!(result, 0b01011010, "XOR should produce correct result");
    assert!(!cpu.registers.f.zero, "Zero flag should not be set");
    assert!(!cpu.registers.f.subtract, "Subtract flag should not be set");
    assert!(
        !cpu.registers.f.half_carry,
        "Half-carry flag should not be set"
    );
    assert!(!cpu.registers.f.carry, "Carry flag should not be set");
}

#[test]
fn test_xor_zero_flag() {
    let mut cpu = setup_cpu();
    cpu.registers.a = 0b10101010;
    let value = 0b10101010;
    let result = cpu.xor(value);
    assert_eq!(result, 0x00, "XOR with same value should produce 0");
    assert!(cpu.registers.f.zero, "Zero flag should be set");
    assert!(!cpu.registers.f.subtract, "Subtract flag should not be set");
    assert!(
        !cpu.registers.f.half_carry,
        "Half-carry flag should not be set"
    );
    assert!(!cpu.registers.f.carry, "Carry flag should not be set");
}

#[test]
fn test_xor_with_zero() {
    let mut cpu = setup_cpu();
    cpu.registers.a = 0xFF;
    let value = 0x00;
    let result = cpu.xor(value);
    assert_eq!(result, 0xFF, "XOR with 0 should return original value");
    assert!(!cpu.registers.f.zero, "Zero flag should not be set");
    assert!(!cpu.registers.f.subtract, "Subtract flag should not be set");
    assert!(
        !cpu.registers.f.half_carry,
        "Half-carry flag should not be set"
    );
    assert!(!cpu.registers.f.carry, "Carry flag should not be set");
}

#[test]
fn test_xor_self() {
    let mut cpu = setup_cpu();
    cpu.registers.a = 0xA5;
    let result = cpu.xor(cpu.registers.a);
    assert_eq!(result, 0x00, "XOR with self should always produce 0");
    assert!(cpu.registers.f.zero, "Zero flag should be set");
    assert!(!cpu.registers.f.subtract, "Subtract flag should not be set");
    assert!(
        !cpu.registers.f.half_carry,
        "Half-carry flag should not be set"
    );
    assert!(!cpu.registers.f.carry, "Carry flag should not be set");
}

#[test]
fn test_xor_all_bits() {
    let mut cpu = setup_cpu();
    cpu.registers.a = 0xFF;
    let value = 0xFF;
    let result = cpu.xor(value);
    assert_eq!(result, 0x00, "XOR 0xFF with 0xFF should produce 0");
    assert!(cpu.registers.f.zero, "Zero flag should be set");
    assert!(!cpu.registers.f.subtract, "Subtract flag should not be set");
    assert!(
        !cpu.registers.f.half_carry,
        "Half-carry flag should not be set"
    );
    assert!(!cpu.registers.f.carry, "Carry flag should not be set");
}

#[test]
fn test_xor_clears_flags() {
    let mut cpu = setup_cpu();
    // Set all flags first
    cpu.registers.f.zero = true;
    cpu.registers.f.subtract = true;
    cpu.registers.f.half_carry = true;
    cpu.registers.f.carry = true;

    cpu.registers.a = 0b11110000;
    let value = 0b00001111;
    let result = cpu.xor(value);
    assert_eq!(result, 0xFF, "XOR should produce correct result");
    assert!(!cpu.registers.f.zero, "Zero flag should be cleared");
    assert!(!cpu.registers.f.subtract, "Subtract flag should be cleared");
    assert!(
        !cpu.registers.f.half_carry,
        "Half-carry flag should be cleared"
    );
    assert!(!cpu.registers.f.carry, "Carry flag should be cleared");
}
