use emulator_core::cpu::registers::Registers;

#[test]
fn test_bc_register_roundtrip() {
    let mut regs = Registers::new();
    regs.set_bc(0x1234);
    assert_eq!(regs.get_bc(), 0x1234);
    assert_eq!(regs.b, 0x12);
    assert_eq!(regs.c, 0x34);
}

#[test]
fn test_de_register_roundtrip() {
    let mut regs = Registers::new();
    regs.set_de(0xABCD);
    assert_eq!(regs.get_de(), 0xABCD);
    assert_eq!(regs.d, 0xAB);
    assert_eq!(regs.e, 0xCD);
}

#[test]
fn test_hl_register_roundtrip() {
    let mut regs = Registers::new();
    regs.set_hl(0x5678);
    assert_eq!(regs.get_hl(), 0x5678);
    assert_eq!(regs.h, 0x56);
    assert_eq!(regs.l, 0x78);
}

#[test]
fn test_default_is_zero() {
    let regs = Registers::default();
    assert_eq!(regs.a, 0);
    assert_eq!(regs.b, 0);
    assert_eq!(regs.c, 0);
    assert_eq!(regs.d, 0);
    assert_eq!(regs.e, 0);
    // we skip f because f register is for flags
    assert_eq!(regs.h, 0);
    assert_eq!(regs.l, 0);
}
