use emulator_core::cpu::instruction::{ArithmeticSource, DestinationRegister};
use emulator_core::cpu::memory_bus::MemoryBus;
use emulator_core::cpu::registers::{FlagsRegister, Registers};
use emulator_core::frame::{fill_frame, frame_color};
use emulator_core::{validate_rom, RomLoadError};

#[test]
fn test_memory_bus_loads_rom_at_zero() {
    let bus = MemoryBus::new(vec![1, 2, 3]);
    assert_eq!(bus.read_byte(0), 1);
    assert_eq!(bus.read_byte(2), 3);
    assert_eq!(bus.read_byte(3), 0);
    let full = MemoryBus::new(vec![0x5A; 0x10000]);
    assert_eq!(full.read_byte(0xFFFF), 0x5A);
}

#[test]
fn test_memory_read_after_write() {
    let mut bus = MemoryBus::new(vec![9; 16]);
    bus.write_byte(0x0004, 0x42);
    bus.write_byte(0xFFFF, 0x24);
    assert_eq!(bus.read_byte(0x0004), 0x42);
    assert_eq!(bus.read_byte(0xFFFF), 0x24);
    assert_eq!(bus.read_byte(0x0003), 9);
    assert_eq!(bus.read_byte(0x0005), 9);
}

#[test]
fn test_flags_byte_roundtrip_every_combination() {
    for bits in 0u8..16 {
        let flags = FlagsRegister {
            zero: bits & 8 != 0,
            subtract: bits & 4 != 0,
            half_carry: bits & 2 != 0,
            carry: bits & 1 != 0,
        };
        let byte: u8 = flags.into();
        assert_eq!(byte, bits << 4);
        let back: FlagsRegister = byte.into();
        assert_eq!(back.zero, flags.zero);
        assert_eq!(back.subtract, flags.subtract);
        assert_eq!(back.half_carry, flags.half_carry);
        assert_eq!(back.carry, flags.carry);
    }
}

#[test]
fn test_byte_flags_roundtrip_every_byte() {
    for byte in 0u8..=255 {
        let flags = FlagsRegister::from(byte);
        assert_eq!(u8::from(flags), byte & 0xF0);
    }
}

#[test]
fn test_flags_new_is_clear() {
    let flags = FlagsRegister::new();
    assert!(!flags.zero && !flags.subtract && !flags.half_carry && !flags.carry);
}

#[test]
fn test_register_pair_laws() {
    let mut regs = Registers::new();
    for value in [0x0000u16, 0x00FF, 0xFF00, 0xFFFF, 0x8001] {
        regs.set_bc(value);
        assert_eq!(regs.get_bc(), value);
        regs.set_de(value);
        assert_eq!(regs.get_de(), value);
        regs.set_hl(value);
        assert_eq!(regs.get_hl(), value);
    }
    let before = (regs.a, regs.b, regs.c, regs.d, regs.e);
    regs.set_hl(0x1234);
    assert_eq!((regs.a, regs.b, regs.c, regs.d, regs.e), before);
}

#[test]
fn test_power_on_register_pairs() {
    let regs = Registers::new();
    assert_eq!(regs.get_bc(), 0xFF13);
    assert_eq!(regs.get_de(), 0x00C1);
    assert_eq!(regs.get_hl(), 0x8403);
}

#[test]
fn test_to_destination_register() {
    assert!(matches!(ArithmeticSource::A.to_destination_register(), DestinationRegister::A));
    assert!(matches!(ArithmeticSource::B.to_destination_register(), DestinationRegister::B));
    assert!(matches!(ArithmeticSource::C.to_destination_register(), DestinationRegister::C));
    assert!(matches!(ArithmeticSource::D.to_destination_register(), DestinationRegister::D));
    assert!(matches!(ArithmeticSource::E.to_destination_register(), DestinationRegister::E));
    assert!(matches!(ArithmeticSource::H.to_destination_register(), DestinationRegister::H));
    assert!(matches!(ArithmeticSource::L.to_destination_register(), DestinationRegister::L));
}

#[test]
fn test_source_names() {
    assert_eq!(ArithmeticSource::A.to_string(), "A");
    assert_eq!(ArithmeticSource::L.to_string(), "L");
    assert_eq!(ArithmeticSource::HLI.to_string(), "HLI");
    assert_eq!(ArithmeticSource::D8.to_string(), "D8");
}

#[test]
fn test_frame_color_alternates_every_sixty_frames() {
    let red = [0xff, 0x00, 0x00, 0xff];
    let blue = [0x00, 0x00, 0xff, 0xff];
    assert_eq!(frame_color(0), red);
    assert_eq!(frame_color(59), red);
    assert_eq!(frame_color(60), blue);
    assert_eq!(frame_color(119), blue);
    assert_eq!(frame_color(120), red);
}

#[test]
fn test_fill_frame_paints_whole_pixels() {
    let mut frame = vec![7u8; 10];
    fill_frame(&mut frame, &[1, 2, 3, 4]);
    assert_eq!(frame, vec![1, 2, 3, 4, 1, 2, 3, 4, 7, 7]);
    let mut empty: Vec<u8> = Vec::new();
    fill_frame(&mut empty, &[1, 2, 3, 4]);
    assert!(empty.is_empty());
}

#[test]
fn test_validate_rom() {
    match validate_rom(Vec::new()) {
        Err(RomLoadError::EmptyRom) => {}
        _ => panic!("Expected EmptyRom error"),
    }
    match validate_rom(vec![0x00, 0xC3, 0x50, 0x01]) {
        Ok(rom) => assert_eq!(rom, vec![0x00, 0xC3, 0x50, 0x01]),
        _ => panic!("Expected the ROM back"),
    }
}
