use vstd::prelude::*;

use crate::cpu::instruction::{
    ArithmeticSource,
    Indirect,
    Instruction,
    JumpTest,
    LoadByteSource,
    LoadByteTarget,
    LoadType,
    LoadWordTarget,
};
use crate::cpu::registers::FlagsRegister;
use crate::cpu::CpuState;

verus! {

/// The arithmetic rules in plain integer terms: addition wraps modulo 256,
/// carries out of bit 3 (half-carry) and bit 7 (carry); decrement wraps,
/// borrows out of bit 4 when the low nibble is zero and keeps carry;
/// exclusive-or sets zero exactly for equal operands and clears the rest;
/// a comparison sets the flags of `a - value` (borrow out of bit 4 for
/// half-carry, borrow out of bit 8 for carry).
pub proof fn lemma_alu_in_integers(flags: FlagsRegister, a: u8, value: u8)
    ensures
        crate::cpu::alu::spec_add_result(a, value) as int == (a + value) % 256,
        crate::cpu::alu::spec_add_flags(a, value).zero == ((a + value) % 256 == 0),
        !crate::cpu::alu::spec_add_flags(a, value).subtract,
        crate::cpu::alu::spec_add_flags(a, value).half_carry == (a % 16 + value % 16 >= 16),
        crate::cpu::alu::spec_add_flags(a, value).carry == (a + value >= 256),
        crate::cpu::alu::spec_dec_result(value) as int == (value + 255) % 256,
        crate::cpu::alu::spec_dec_flags(flags, value).zero == (value == 1),
        crate::cpu::alu::spec_dec_flags(flags, value).subtract,
        crate::cpu::alu::spec_dec_flags(flags, value).half_carry == (value % 16 - 1 < 0),
        crate::cpu::alu::spec_dec_flags(flags, value).carry == flags.carry,
        crate::cpu::alu::spec_xor_flags(a, value).zero == (a == value),
        !crate::cpu::alu::spec_xor_flags(a, value).subtract,
        !crate::cpu::alu::spec_xor_flags(a, value).half_carry,
        !crate::cpu::alu::spec_xor_flags(a, value).carry,
        crate::cpu::alu::spec_compare_flags(a, value).zero == (a - value == 0),
        crate::cpu::alu::spec_compare_flags(a, value).subtract,
        crate::cpu::alu::spec_compare_flags(a, value).half_carry == (a % 16 - value % 16 < 0),
        crate::cpu::alu::spec_compare_flags(a, value).carry == (a - value < 0),
{
    crate::cpu::alu::lemma_xor_undo(a, value);
}

/// The opcode table, part 1 of 2: each implemented opcode and the
/// instruction it stands for.
pub proof fn lemma_decode_table_1()
    ensures
        crate::cpu::spec_decode(0x00) == Some(Instruction::NOP),
        crate::cpu::spec_decode(0x01) == Some(Instruction::LD(LoadType::Word(LoadWordTarget::BC))),
        crate::cpu::spec_decode(0x05) == Some(Instruction::DEC(ArithmeticSource::B)),
        crate::cpu::spec_decode(0x06) == Some(Instruction::LD(LoadType::Byte(LoadByteTarget::B, LoadByteSource::D8))),
        crate::cpu::spec_decode(0x0d) == Some(Instruction::DEC(ArithmeticSource::C)),
        crate::cpu::spec_decode(0x0e) == Some(Instruction::LD(LoadType::Byte(LoadByteTarget::C, LoadByteSource::D8))),
        crate::cpu::spec_decode(0x11) == Some(Instruction::LD(LoadType::Word(LoadWordTarget::DE))),
        crate::cpu::spec_decode(0x15) == Some(Instruction::DEC(ArithmeticSource::D)),
        crate::cpu::spec_decode(0x16) == Some(Instruction::LD(LoadType::Byte(LoadByteTarget::D, LoadByteSource::D8))),
        crate::cpu::spec_decode(0x18) == Some(Instruction::JR(JumpTest::Always)),
        crate::cpu::spec_decode(0x1d) == Some(Instruction::DEC(ArithmeticSource::E)),
        crate::cpu::spec_decode(0x1e) == Some(Instruction::LD(LoadType::Byte(LoadByteTarget::E, LoadByteSource::D8))),
        crate::cpu::spec_decode(0x20) == Some(Instruction::JR(JumpTest::NotZero)),
        crate::cpu::spec_decode(0x21) == Some(Instruction::LD(LoadType::Word(LoadWordTarget::HL))),
        crate::cpu::spec_decode(0x25) == Some(Instruction::DEC(ArithmeticSource::H)),
        crate::cpu::spec_decode(0x26) == Some(Instruction::LD(LoadType::Byte(LoadByteTarget::H, LoadByteSource::D8))),
        crate::cpu::spec_decode(0x28) == Some(Instruction::JR(JumpTest::Zero)),
        crate::cpu::spec_decode(0x2d) == Some(Instruction::DEC(ArithmeticSource::L)),
        crate::cpu::spec_decode(0x2e) == Some(Instruction::LD(LoadType::Byte(LoadByteTarget::L, LoadByteSource::D8))),
        crate::cpu::spec_decode(0x31) == Some(Instruction::LD(LoadType::Word(LoadWordTarget::SP))),
        crate::cpu::spec_decode(0x30) == Some(Instruction::JR(JumpTest::NotCarry)),
        crate::cpu::spec_decode(0x32) == Some(Instruction::LD(LoadType::IndirectFromA(Indirect::HLIndirectMinus))),
        crate::cpu::spec_decode(0x35) == Some(Instruction::DEC(ArithmeticSource::HLI)),
        crate::cpu::spec_decode(0x36) == Some(Instruction::LD(LoadType::Byte(LoadByteTarget::HLI, LoadByteSource::D8))),
        crate::cpu::spec_decode(0x38) == Some(Instruction::JR(JumpTest::Carry)),
        crate::cpu::spec_decode(0x3d) == Some(Instruction::DEC(ArithmeticSource::A)),
        crate::cpu::spec_decode(0x3e) == Some(Instruction::LD(LoadType::Byte(LoadByteTarget::A, LoadByteSource::D8))),
        crate::cpu::spec_decode(0x40) == Some(Instruction::LD(LoadType::Byte(LoadByteTarget::B, LoadByteSource::B))),
        crate::cpu::spec_decode(0x41) == Some(Instruction::LD(LoadType::Byte(LoadByteTarget::B, LoadByteSource::C))),
        crate::cpu::spec_decode(0x42) == Some(Instruction::LD(LoadType::Byte(LoadByteTarget::B, LoadByteSource::D))),
        crate::cpu::spec_decode(0x43) == Some(Instruction::LD(LoadType::Byte(LoadByteTarget::B, LoadByteSource::E))),
        crate::cpu::spec_decode(0x44) == Some(Instruction::LD(LoadType::Byte(LoadByteTarget::B, LoadByteSource::H))),
        crate::cpu::spec_decode(0x45) == Some(Instruction::LD(LoadType::Byte(LoadByteTarget::B, LoadByteSource::L))),
        crate::cpu::spec_decode(0x46) == Some(Instruction::LD(LoadType::Byte(LoadByteTarget::B, LoadByteSource::HLI))),
        crate::cpu::spec_decode(0x47) == Some(Instruction::LD(LoadType::Byte(LoadByteTarget::B, LoadByteSource::A))),
        crate::cpu::spec_decode(0x48) == Some(Instruction::LD(LoadType::Byte(LoadByteTarget::C, LoadByteSource::B))),
        crate::cpu::spec_decode(0x49) == Some(Instruction::LD(LoadType::Byte(LoadByteTarget::C, LoadByteSource::C))),
        crate::cpu::spec_decode(0x4a) == Some(Instruction::LD(LoadType::Byte(LoadByteTarget::C, LoadByteSource::D))),
        crate::cpu::spec_decode(0x4b) == Some(Instruction::LD(LoadType::Byte(LoadByteTarget::C, LoadByteSource::E))),
        crate::cpu::spec_decode(0x4c) == Some(Instruction::LD(LoadType::Byte(LoadByteTarget::C, LoadByteSource::H))),
        crate::cpu::spec_decode(0x4d) == Some(Instruction::LD(LoadType::Byte(LoadByteTarget::C, LoadByteSource::L))),
        crate::cpu::spec_decode(0x4e) == Some(Instruction::LD(LoadType::Byte(LoadByteTarget::C, LoadByteSource::HLI))),
        crate::cpu::spec_decode(0x4f) == Some(Instruction::LD(LoadType::Byte(LoadByteTarget::C, LoadByteSource::A))),
        crate::cpu::spec_decode(0x50) == Some(Instruction::LD(LoadType::Byte(LoadByteTarget::D, LoadByteSource::B))),
        crate::cpu::spec_decode(0x51) == Some(Instruction::LD(LoadType::Byte(LoadByteTarget::D, LoadByteSource::C))),
        crate::cpu::spec_decode(0x52) == Some(Instruction::LD(LoadType::Byte(LoadByteTarget::D, LoadByteSource::D))),
        crate::cpu::spec_decode(0x53) == Some(Instruction::LD(LoadType::Byte(LoadByteTarget::D, LoadByteSource::E))),
        crate::cpu::spec_decode(0x54) == Some(Instruction::LD(LoadType::Byte(LoadByteTarget::D, LoadByteSource::H))),
        crate::cpu::spec_decode(0x55) == Some(Instruction::LD(LoadType::Byte(LoadByteTarget::D, LoadByteSource::L))),
        crate::cpu::spec_decode(0x56) == Some(Instruction::LD(LoadType::Byte(LoadByteTarget::D, LoadByteSource::HLI))),
        crate::cpu::spec_decode(0x57) == Some(Instruction::LD(LoadType::Byte(LoadByteTarget::D, LoadByteSource::A))),
        crate::cpu::spec_decode(0x58) == Some(Instruction::LD(LoadType::Byte(LoadByteTarget::E, LoadByteSource::B))),
        crate::cpu::spec_decode(0x59) == Some(Instruction::LD(LoadType::Byte(LoadByteTarget::E, LoadByteSource::C))),
        crate::cpu::spec_decode(0x5a) == Some(Instruction::LD(LoadType::Byte(LoadByteTarget::E, LoadByteSource::D))),
        crate::cpu::spec_decode(0x5b) == Some(Instruction::LD(LoadType::Byte(LoadByteTarget::E, LoadByteSource::E))),
{
}

/// The opcode table, part 2 of 2: each implemented opcode and the
/// instruction it stands for.
pub proof fn lemma_decode_table_2()
    ensures
        crate::cpu::spec_decode(0x5c) == Some(Instruction::LD(LoadType::Byte(LoadByteTarget::E, LoadByteSource::H))),
        crate::cpu::spec_decode(0x5d) == Some(Instruction::LD(LoadType::Byte(LoadByteTarget::E, LoadByteSource::L))),
        crate::cpu::spec_decode(0x5e) == Some(Instruction::LD(LoadType::Byte(LoadByteTarget::E, LoadByteSource::HLI))),
        crate::cpu::spec_decode(0x5f) == Some(Instruction::LD(LoadType::Byte(LoadByteTarget::E, LoadByteSource::A))),
        crate::cpu::spec_decode(0x60) == Some(Instruction::LD(LoadType::Byte(LoadByteTarget::H, LoadByteSource::B))),
        crate::cpu::spec_decode(0x61) == Some(Instruction::LD(LoadType::Byte(LoadByteTarget::H, LoadByteSource::C))),
        crate::cpu::spec_decode(0x62) == Some(Instruction::LD(LoadType::Byte(LoadByteTarget::H, LoadByteSource::D))),
        crate::cpu::spec_decode(0x63) == Some(Instruction::LD(LoadType::Byte(LoadByteTarget::H, LoadByteSource::E))),
        crate::cpu::spec_decode(0x64) == Some(Instruction::LD(LoadType::Byte(LoadByteTarget::H, LoadByteSource::H))),
        crate::cpu::spec_decode(0x65) == Some(Instruction::LD(LoadType::Byte(LoadByteTarget::H, LoadByteSource::L))),
        crate::cpu::spec_decode(0x66) == Some(Instruction::LD(LoadType::Byte(LoadByteTarget::H, LoadByteSource::HLI))),
        crate::cpu::spec_decode(0x67) == Some(Instruction::LD(LoadType::Byte(LoadByteTarget::H, LoadByteSource::A))),
        crate::cpu::spec_decode(0x68) == Some(Instruction::LD(LoadType::Byte(LoadByteTarget::L, LoadByteSource::B))),
        crate::cpu::spec_decode(0x69) == Some(Instruction::LD(LoadType::Byte(LoadByteTarget::L, LoadByteSource::C))),
        crate::cpu::spec_decode(0x6a) == Some(Instruction::LD(LoadType::Byte(LoadByteTarget::L, LoadByteSource::D))),
        crate::cpu::spec_decode(0x6b) == Some(Instruction::LD(LoadType::Byte(LoadByteTarget::L, LoadByteSource::E))),
        crate::cpu::spec_decode(0x6c) == Some(Instruction::LD(LoadType::Byte(LoadByteTarget::L, LoadByteSource::H))),
        crate::cpu::spec_decode(0x6d) == Some(Instruction::LD(LoadType::Byte(LoadByteTarget::L, LoadByteSource::L))),
        crate::cpu::spec_decode(0x6e) == Some(Instruction::LD(LoadType::Byte(LoadByteTarget::L, LoadByteSource::HLI))),
        crate::cpu::spec_decode(0x6f) == Some(Instruction::LD(LoadType::Byte(LoadByteTarget::L, LoadByteSource::A))),
        crate::cpu::spec_decode(0x70) == Some(Instruction::LD(LoadType::Byte(LoadByteTarget::HLI, LoadByteSource::B))),
        crate::cpu::spec_decode(0x71) == Some(Instruction::LD(LoadType::Byte(LoadByteTarget::HLI, LoadByteSource::C))),
        crate::cpu::spec_decode(0x72) == Some(Instruction::LD(LoadType::Byte(LoadByteTarget::HLI, LoadByteSource::D))),
        crate::cpu::spec_decode(0x73) == Some(Instruction::LD(LoadType::Byte(LoadByteTarget::HLI, LoadByteSource::E))),
        crate::cpu::spec_decode(0x74) == Some(Instruction::LD(LoadType::Byte(LoadByteTarget::HLI, LoadByteSource::H))),
        crate::cpu::spec_decode(0x75) == Some(Instruction::LD(LoadType::Byte(LoadByteTarget::HLI, LoadByteSource::L))),
        crate::cpu::spec_decode(0x77) == Some(Instruction::LD(LoadType::Byte(LoadByteTarget::HLI, LoadByteSource::A))),
        crate::cpu::spec_decode(0x78) == Some(Instruction::LD(LoadType::Byte(LoadByteTarget::A, LoadByteSource::B))),
        crate::cpu::spec_decode(0x79) == Some(Instruction::LD(LoadType::Byte(LoadByteTarget::A, LoadByteSource::C))),
        crate::cpu::spec_decode(0x7a) == Some(Instruction::LD(LoadType::Byte(LoadByteTarget::A, LoadByteSource::D))),
        crate::cpu::spec_decode(0x7b) == Some(Instruction::LD(LoadType::Byte(LoadByteTarget::A, LoadByteSource::E))),
        crate::cpu::spec_decode(0x7c) == Some(Instruction::LD(LoadType::Byte(LoadByteTarget::A, LoadByteSource::H))),
        crate::cpu::spec_decode(0x7d) == Some(Instruction::LD(LoadType::Byte(LoadByteTarget::A, LoadByteSource::L))),
        crate::cpu::spec_decode(0x7e) == Some(Instruction::LD(LoadType::Byte(LoadByteTarget::A, LoadByteSource::HLI))),
        crate::cpu::spec_decode(0x7f) == Some(Instruction::LD(LoadType::Byte(LoadByteTarget::A, LoadByteSource::A))),
        crate::cpu::spec_decode(0x81) == Some(Instruction::ADD(ArithmeticSource::C)),
        crate::cpu::spec_decode(0xA8) == Some(Instruction::XOR(ArithmeticSource::B)),
        crate::cpu::spec_decode(0xA9) == Some(Instruction::XOR(ArithmeticSource::C)),
        crate::cpu::spec_decode(0xAA) == Some(Instruction::XOR(ArithmeticSource::D)),
        crate::cpu::spec_decode(0xAB) == Some(Instruction::XOR(ArithmeticSource::E)),
        crate::cpu::spec_decode(0xAC) == Some(Instruction::XOR(ArithmeticSource::H)),
        crate::cpu::spec_decode(0xAD) == Some(Instruction::XOR(ArithmeticSource::L)),
        crate::cpu::spec_decode(0xAE) == Some(Instruction::XOR(ArithmeticSource::HLI)),
        crate::cpu::spec_decode(0xAF) == Some(Instruction::XOR(ArithmeticSource::A)),
        crate::cpu::spec_decode(0xC3) == Some(Instruction::JP(JumpTest::Always)),
        crate::cpu::spec_decode(0xB8) == Some(Instruction::CP(ArithmeticSource::B)),
        crate::cpu::spec_decode(0xB9) == Some(Instruction::CP(ArithmeticSource::C)),
        crate::cpu::spec_decode(0xBA) == Some(Instruction::CP(ArithmeticSource::D)),
        crate::cpu::spec_decode(0xBB) == Some(Instruction::CP(ArithmeticSource::E)),
        crate::cpu::spec_decode(0xBC) == Some(Instruction::CP(ArithmeticSource::H)),
        crate::cpu::spec_decode(0xBD) == Some(Instruction::CP(ArithmeticSource::L)),
        crate::cpu::spec_decode(0xBE) == Some(Instruction::CP(ArithmeticSource::HLI)),
        crate::cpu::spec_decode(0xBF) == Some(Instruction::CP(ArithmeticSource::A)),
        crate::cpu::spec_decode(0xEE) == Some(Instruction::XOR(ArithmeticSource::D8)),
        crate::cpu::spec_decode(0xFE) == Some(Instruction::CP(ArithmeticSource::D8)),
{
}

/// No opcode outside the table decodes to an instruction.
pub proof fn lemma_decode_unknown(opcode: u8)
    requires
        !(opcode == 0x00 || opcode == 0x01 || opcode == 0x05 || opcode == 0x06 || opcode == 0x0d || opcode == 0x0e || opcode == 0x11 || opcode == 0x15 || opcode == 0x16 || opcode == 0x18 || opcode == 0x1d || opcode == 0x1e || opcode == 0x20 || opcode == 0x21 || opcode == 0x25 || opcode == 0x26 || opcode == 0x28 || opcode == 0x2d || opcode == 0x2e || opcode == 0x31 || opcode == 0x30 || opcode == 0x32 || opcode == 0x35 || opcode == 0x36 || opcode == 0x38 || opcode == 0x3d || opcode == 0x3e || opcode == 0x40 || opcode == 0x41 || opcode == 0x42 || opcode == 0x43 || opcode == 0x44 || opcode == 0x45 || opcode == 0x46 || opcode == 0x47 || opcode == 0x48 || opcode == 0x49 || opcode == 0x4a || opcode == 0x4b || opcode == 0x4c || opcode == 0x4d || opcode == 0x4e || opcode == 0x4f || opcode == 0x50 || opcode == 0x51 || opcode == 0x52 || opcode == 0x53 || opcode == 0x54 || opcode == 0x55 || opcode == 0x56 || opcode == 0x57 || opcode == 0x58 || opcode == 0x59 || opcode == 0x5a || opcode == 0x5b || opcode == 0x5c || opcode == 0x5d || opcode == 0x5e || opcode == 0x5f || opcode == 0x60 || opcode == 0x61 || opcode == 0x62 || opcode == 0x63 || opcode == 0x64 || opcode == 0x65 || opcode == 0x66 || opcode == 0x67 || opcode == 0x68 || opcode == 0x69 || opcode == 0x6a || opcode == 0x6b || opcode == 0x6c || opcode == 0x6d || opcode == 0x6e || opcode == 0x6f || opcode == 0x70 || opcode == 0x71 || opcode == 0x72 || opcode == 0x73 || opcode == 0x74 || opcode == 0x75 || opcode == 0x77 || opcode == 0x78 || opcode == 0x79 || opcode == 0x7a || opcode == 0x7b || opcode == 0x7c || opcode == 0x7d || opcode == 0x7e || opcode == 0x7f || opcode == 0x81 || opcode == 0xA8 || opcode == 0xA9 || opcode == 0xAA || opcode == 0xAB || opcode == 0xAC || opcode == 0xAD || opcode == 0xAE || opcode == 0xAF || opcode == 0xC3 || opcode == 0xB8 || opcode == 0xB9 || opcode == 0xBA || opcode == 0xBB || opcode == 0xBC || opcode == 0xBD || opcode == 0xBE || opcode == 0xBF || opcode == 0xEE || opcode == 0xFE),
    ensures
        crate::cpu::spec_decode(opcode) is None,
{
}

/// `LD rr, d16` puts the little-endian word after the opcode into the named
/// pair (high byte from the second operand byte) or into SP, and changes
/// nothing else.
pub proof fn lemma_load_word(s: CpuState)
    ensures
        ({
            let (t, next, cycles) = crate::cpu::spec_execute(s, Instruction::LD(LoadType::Word(LoadWordTarget::BC)));
            {
                &&& t.registers.b == s.memory[((s.pc + 2) % 0x10000) as int]
                &&& t.registers.c == s.memory[((s.pc + 1) % 0x10000) as int]
                &&& t.registers.a == s.registers.a
                &&& t.registers.d == s.registers.d
                &&& t.registers.e == s.registers.e
                &&& t.registers.h == s.registers.h
                &&& t.registers.l == s.registers.l
                &&& t.registers.f == s.registers.f
                &&& t.sp == s.sp
                &&& t.pc == s.pc
                &&& t.memory == s.memory
                &&& next as int == (s.pc + 3) % 0x10000
                &&& cycles == 12
            }
        }),
        ({
            let (t, next, cycles) = crate::cpu::spec_execute(s, Instruction::LD(LoadType::Word(LoadWordTarget::DE)));
            {
                &&& t.registers.d == s.memory[((s.pc + 2) % 0x10000) as int]
                &&& t.registers.e == s.memory[((s.pc + 1) % 0x10000) as int]
                &&& t.registers.a == s.registers.a
                &&& t.registers.b == s.registers.b
                &&& t.registers.c == s.registers.c
                &&& t.registers.h == s.registers.h
                &&& t.registers.l == s.registers.l
                &&& t.registers.f == s.registers.f
                &&& t.sp == s.sp
                &&& t.pc == s.pc
                &&& t.memory == s.memory
                &&& next as int == (s.pc + 3) % 0x10000
                &&& cycles == 12
            }
        }),
        ({
            let (t, next, cycles) = crate::cpu::spec_execute(s, Instruction::LD(LoadType::Word(LoadWordTarget::HL)));
            {
                &&& t.registers.h == s.memory[((s.pc + 2) % 0x10000) as int]
                &&& t.registers.l == s.memory[((s.pc + 1) % 0x10000) as int]
                &&& t.registers.a == s.registers.a
                &&& t.registers.b == s.registers.b
                &&& t.registers.c == s.registers.c
                &&& t.registers.d == s.registers.d
                &&& t.registers.e == s.registers.e
                &&& t.registers.f == s.registers.f
                &&& t.sp == s.sp
                &&& t.pc == s.pc
                &&& t.memory == s.memory
                &&& next as int == (s.pc + 3) % 0x10000
                &&& cycles == 12
            }
        }),
        ({
            let (t, next, cycles) = crate::cpu::spec_execute(s, Instruction::LD(LoadType::Word(LoadWordTarget::SP)));
            {
                &&& t.sp as int == s.memory[((s.pc + 1) % 0x10000) as int] + 256 * s.memory[((s.pc + 2) % 0x10000) as int]
                &&& t.registers.a == s.registers.a
                &&& t.registers.b == s.registers.b
                &&& t.registers.c == s.registers.c
                &&& t.registers.d == s.registers.d
                &&& t.registers.e == s.registers.e
                &&& t.registers.h == s.registers.h
                &&& t.registers.l == s.registers.l
                &&& t.registers.f == s.registers.f
                &&& t.pc == s.pc
                &&& t.memory == s.memory
                &&& next as int == (s.pc + 3) % 0x10000
                &&& cycles == 12
            }
        }),
{
}

/// `LD A, x` stores the value of `x` (a register, the byte at HL, or the
/// byte after the opcode) in A and changes nothing else.
pub proof fn lemma_load_byte_into_a(s: CpuState)
    ensures
        ({
            let (t, next, cycles) = crate::cpu::spec_execute(s, Instruction::LD(LoadType::Byte(LoadByteTarget::A, LoadByteSource::A)));
            {
                &&& t.registers.a == s.registers.a
                &&& t.registers.b == s.registers.b
                &&& t.registers.c == s.registers.c
                &&& t.registers.d == s.registers.d
                &&& t.registers.e == s.registers.e
                &&& t.registers.h == s.registers.h
                &&& t.registers.l == s.registers.l
                &&& t.registers.f == s.registers.f
                &&& t.memory == s.memory
                &&& t.sp == s.sp
                &&& t.pc == s.pc
                &&& next as int == (s.pc + 1) % 0x10000
                &&& cycles == 4
            }
        }),
        ({
            let (t, next, cycles) = crate::cpu::spec_execute(s, Instruction::LD(LoadType::Byte(LoadByteTarget::A, LoadByteSource::B)));
            {
                &&& t.registers.a == s.registers.b
                &&& t.registers.b == s.registers.b
                &&& t.registers.c == s.registers.c
                &&& t.registers.d == s.registers.d
                &&& t.registers.e == s.registers.e
                &&& t.registers.h == s.registers.h
                &&& t.registers.l == s.registers.l
                &&& t.registers.f == s.registers.f
                &&& t.memory == s.memory
                &&& t.sp == s.sp
                &&& t.pc == s.pc
                &&& next as int == (s.pc + 1) % 0x10000
                &&& cycles == 4
            }
        }),
        ({
            let (t, next, cycles) = crate::cpu::spec_execute(s, Instruction::LD(LoadType::Byte(LoadByteTarget::A, LoadByteSource::C)));
            {
                &&& t.registers.a == s.registers.c
                &&& t.registers.b == s.registers.b
                &&& t.registers.c == s.registers.c
                &&& t.registers.d == s.registers.d
                &&& t.registers.e == s.registers.e
                &&& t.registers.h == s.registers.h
                &&& t.registers.l == s.registers.l
                &&& t.registers.f == s.registers.f
                &&& t.memory == s.memory
                &&& t.sp == s.sp
                &&& t.pc == s.pc
                &&& next as int == (s.pc + 1) % 0x10000
                &&& cycles == 4
            }
        }),
        ({
            let (t, next, cycles) = crate::cpu::spec_execute(s, Instruction::LD(LoadType::Byte(LoadByteTarget::A, LoadByteSource::D)));
            {
                &&& t.registers.a == s.registers.d
                &&& t.registers.b == s.registers.b
                &&& t.registers.c == s.registers.c
                &&& t.registers.d == s.registers.d
                &&& t.registers.e == s.registers.e
                &&& t.registers.h == s.registers.h
                &&& t.registers.l == s.registers.l
                &&& t.registers.f == s.registers.f
                &&& t.memory == s.memory
                &&& t.sp == s.sp
                &&& t.pc == s.pc
                &&& next as int == (s.pc + 1) % 0x10000
                &&& cycles == 4
            }
        }),
        ({
            let (t, next, cycles) = crate::cpu::spec_execute(s, Instruction::LD(LoadType::Byte(LoadByteTarget::A, LoadByteSource::E)));
            {
                &&& t.registers.a == s.registers.e
                &&& t.registers.b == s.registers.b
                &&& t.registers.c == s.registers.c
                &&& t.registers.d == s.registers.d
                &&& t.registers.e == s.registers.e
                &&& t.registers.h == s.registers.h
                &&& t.registers.l == s.registers.l
                &&& t.registers.f == s.registers.f
                &&& t.memory == s.memory
                &&& t.sp == s.sp
                &&& t.pc == s.pc
                &&& next as int == (s.pc + 1) % 0x10000
                &&& cycles == 4
            }
        }),
        ({
            let (t, next, cycles) = crate::cpu::spec_execute(s, Instruction::LD(LoadType::Byte(LoadByteTarget::A, LoadByteSource::H)));
            {
                &&& t.registers.a == s.registers.h
                &&& t.registers.b == s.registers.b
                &&& t.registers.c == s.registers.c
                &&& t.registers.d == s.registers.d
                &&& t.registers.e == s.registers.e
                &&& t.registers.h == s.registers.h
                &&& t.registers.l == s.registers.l
                &&& t.registers.f == s.registers.f
                &&& t.memory == s.memory
                &&& t.sp == s.sp
                &&& t.pc == s.pc
                &&& next as int == (s.pc + 1) % 0x10000
                &&& cycles == 4
            }
        }),
        ({
            let (t, next, cycles) = crate::cpu::spec_execute(s, Instruction::LD(LoadType::Byte(LoadByteTarget::A, LoadByteSource::L)));
            {
                &&& t.registers.a == s.registers.l
                &&& t.registers.b == s.registers.b
                &&& t.registers.c == s.registers.c
                &&& t.registers.d == s.registers.d
                &&& t.registers.e == s.registers.e
                &&& t.registers.h == s.registers.h
                &&& t.registers.l == s.registers.l
                &&& t.registers.f == s.registers.f
                &&& t.memory == s.memory
                &&& t.sp == s.sp
                &&& t.pc == s.pc
                &&& next as int == (s.pc + 1) % 0x10000
                &&& cycles == 4
            }
        }),
        ({
            let (t, next, cycles) = crate::cpu::spec_execute(s, Instruction::LD(LoadType::Byte(LoadByteTarget::A, LoadByteSource::D8)));
            {
                &&& t.registers.a == s.memory[((s.pc + 1) % 0x10000) as int]
                &&& t.registers.b == s.registers.b
                &&& t.registers.c == s.registers.c
                &&& t.registers.d == s.registers.d
                &&& t.registers.e == s.registers.e
                &&& t.registers.h == s.registers.h
                &&& t.registers.l == s.registers.l
                &&& t.registers.f == s.registers.f
                &&& t.memory == s.memory
                &&& t.sp == s.sp
                &&& t.pc == s.pc
                &&& next as int == (s.pc + 2) % 0x10000
                &&& cycles == 8
            }
        }),
        ({
            let (t, next, cycles) = crate::cpu::spec_execute(s, Instruction::LD(LoadType::Byte(LoadByteTarget::A, LoadByteSource::HLI)));
            {
                &&& t.registers.a == s.memory[(256 * s.registers.h + s.registers.l)]
                &&& t.registers.b == s.registers.b
                &&& t.registers.c == s.registers.c
                &&& t.registers.d == s.registers.d
                &&& t.registers.e == s.registers.e
                &&& t.registers.h == s.registers.h
                &&& t.registers.l == s.registers.l
                &&& t.registers.f == s.registers.f
                &&& t.memory == s.memory
                &&& t.sp == s.sp
                &&& t.pc == s.pc
                &&& next as int == (s.pc + 1) % 0x10000
                &&& cycles == 8
            }
        }),
{
}

/// `LD B, x` stores the value of `x` (a register, the byte at HL, or the
/// byte after the opcode) in B and changes nothing else.
pub proof fn lemma_load_byte_into_b(s: CpuState)
    ensures
        ({
            let (t, next, cycles) = crate::cpu::spec_execute(s, Instruction::LD(LoadType::Byte(LoadByteTarget::B, LoadByteSource::A)));
            {
                &&& t.registers.b == s.registers.a
                &&& t.registers.a == s.registers.a
                &&& t.registers.c == s.registers.c
                &&& t.registers.d == s.registers.d
                &&& t.registers.e == s.registers.e
                &&& t.registers.h == s.registers.h
                &&& t.registers.l == s.registers.l
                &&& t.registers.f == s.registers.f
                &&& t.memory == s.memory
                &&& t.sp == s.sp
                &&& t.pc == s.pc
                &&& next as int == (s.pc + 1) % 0x10000
                &&& cycles == 4
            }
        }),
        ({
            let (t, next, cycles) = crate::cpu::spec_execute(s, Instruction::LD(LoadType::Byte(LoadByteTarget::B, LoadByteSource::B)));
            {
                &&& t.registers.b == s.registers.b
                &&& t.registers.a == s.registers.a
                &&& t.registers.c == s.registers.c
                &&& t.registers.d == s.registers.d
                &&& t.registers.e == s.registers.e
                &&& t.registers.h == s.registers.h
                &&& t.registers.l == s.registers.l
                &&& t.registers.f == s.registers.f
                &&& t.memory == s.memory
                &&& t.sp == s.sp
                &&& t.pc == s.pc
                &&& next as int == (s.pc + 1) % 0x10000
                &&& cycles == 4
            }
        }),
        ({
            let (t, next, cycles) = crate::cpu::spec_execute(s, Instruction::LD(LoadType::Byte(LoadByteTarget::B, LoadByteSource::C)));
            {
                &&& t.registers.b == s.registers.c
                &&& t.registers.a == s.registers.a
                &&& t.registers.c == s.registers.c
                &&& t.registers.d == s.registers.d
                &&& t.registers.e == s.registers.e
                &&& t.registers.h == s.registers.h
                &&& t.registers.l == s.registers.l
                &&& t.registers.f == s.registers.f
                &&& t.memory == s.memory
                &&& t.sp == s.sp
                &&& t.pc == s.pc
                &&& next as int == (s.pc + 1) % 0x10000
                &&& cycles == 4
            }
        }),
        ({
            let (t, next, cycles) = crate::cpu::spec_execute(s, Instruction::LD(LoadType::Byte(LoadByteTarget::B, LoadByteSource::D)));
            {
                &&& t.registers.b == s.registers.d
                &&& t.registers.a == s.registers.a
                &&& t.registers.c == s.registers.c
                &&& t.registers.d == s.registers.d
                &&& t.registers.e == s.registers.e
                &&& t.registers.h == s.registers.h
                &&& t.registers.l == s.registers.l
                &&& t.registers.f == s.registers.f
                &&& t.memory == s.memory
                &&& t.sp == s.sp
                &&& t.pc == s.pc
                &&& next as int == (s.pc + 1) % 0x10000
                &&& cycles == 4
            }
        }),
        ({
            let (t, next, cycles) = crate::cpu::spec_execute(s, Instruction::LD(LoadType::Byte(LoadByteTarget::B, LoadByteSource::E)));
            {
                &&& t.registers.b == s.registers.e
                &&& t.registers.a == s.registers.a
                &&& t.registers.c == s.registers.c
                &&& t.registers.d == s.registers.d
                &&& t.registers.e == s.registers.e
                &&& t.registers.h == s.registers.h
                &&& t.registers.l == s.registers.l
                &&& t.registers.f == s.registers.f
                &&& t.memory == s.memory
                &&& t.sp == s.sp
                &&& t.pc == s.pc
                &&& next as int == (s.pc + 1) % 0x10000
                &&& cycles == 4
            }
        }),
        ({
            let (t, next, cycles) = crate::cpu::spec_execute(s, Instruction::LD(LoadType::Byte(LoadByteTarget::B, LoadByteSource::H)));
            {
                &&& t.registers.b == s.registers.h
                &&& t.registers.a == s.registers.a
                &&& t.registers.c == s.registers.c
                &&& t.registers.d == s.registers.d
                &&& t.registers.e == s.registers.e
                &&& t.registers.h == s.registers.h
                &&& t.registers.l == s.registers.l
                &&& t.registers.f == s.registers.f
                &&& t.memory == s.memory
                &&& t.sp == s.sp
                &&& t.pc == s.pc
                &&& next as int == (s.pc + 1) % 0x10000
                &&& cycles == 4
            }
        }),
        ({
            let (t, next, cycles) = crate::cpu::spec_execute(s, Instruction::LD(LoadType::Byte(LoadByteTarget::B, LoadByteSource::L)));
            {
                &&& t.registers.b == s.registers.l
                &&& t.registers.a == s.registers.a
                &&& t.registers.c == s.registers.c
                &&& t.registers.d == s.registers.d
                &&& t.registers.e == s.registers.e
                &&& t.registers.h == s.registers.h
                &&& t.registers.l == s.registers.l
                &&& t.registers.f == s.registers.f
                &&& t.memory == s.memory
                &&& t.sp == s.sp
                &&& t.pc == s.pc
                &&& next as int == (s.pc + 1) % 0x10000
                &&& cycles == 4
            }
        }),
        ({
            let (t, next, cycles) = crate::cpu::spec_execute(s, Instruction::LD(LoadType::Byte(LoadByteTarget::B, LoadByteSource::D8)));
            {
                &&& t.registers.b == s.memory[((s.pc + 1) % 0x10000) as int]
                &&& t.registers.a == s.registers.a
                &&& t.registers.c == s.registers.c
                &&& t.registers.d == s.registers.d
                &&& t.registers.e == s.registers.e
                &&& t.registers.h == s.registers.h
                &&& t.registers.l == s.registers.l
                &&& t.registers.f == s.registers.f
                &&& t.memory == s.memory
                &&& t.sp == s.sp
                &&& t.pc == s.pc
                &&& next as int == (s.pc + 2) % 0x10000
                &&& cycles == 8
            }
        }),
        ({
            let (t, next, cycles) = crate::cpu::spec_execute(s, Instruction::LD(LoadType::Byte(LoadByteTarget::B, LoadByteSource::HLI)));
            {
                &&& t.registers.b == s.memory[(256 * s.registers.h + s.registers.l)]
                &&& t.registers.a == s.registers.a
                &&& t.registers.c == s.registers.c
                &&& t.registers.d == s.registers.d
                &&& t.registers.e == s.registers.e
                &&& t.registers.h == s.registers.h
                &&& t.registers.l == s.registers.l
                &&& t.registers.f == s.registers.f
                &&& t.memory == s.memory
                &&& t.sp == s.sp
                &&& t.pc == s.pc
                &&& next as int == (s.pc + 1) % 0x10000
                &&& cycles == 8
            }
        }),
{
}

/// `LD C, x` stores the value of `x` (a register, the byte at HL, or the
/// byte after the opcode) in C and changes nothing else.
pub proof fn lemma_load_byte_into_c(s: CpuState)
    ensures
        ({
            let (t, next, cycles) = crate::cpu::spec_execute(s, Instruction::LD(LoadType::Byte(LoadByteTarget::C, LoadByteSource::A)));
            {
                &&& t.registers.c == s.registers.a
                &&& t.registers.a == s.registers.a
                &&& t.registers.b == s.registers.b
                &&& t.registers.d == s.registers.d
                &&& t.registers.e == s.registers.e
                &&& t.registers.h == s.registers.h
                &&& t.registers.l == s.registers.l
                &&& t.registers.f == s.registers.f
                &&& t.memory == s.memory
                &&& t.sp == s.sp
                &&& t.pc == s.pc
                &&& next as int == (s.pc + 1) % 0x10000
                &&& cycles == 4
            }
        }),
        ({
            let (t, next, cycles) = crate::cpu::spec_execute(s, Instruction::LD(LoadType::Byte(LoadByteTarget::C, LoadByteSource::B)));
            {
                &&& t.registers.c == s.registers.b
                &&& t.registers.a == s.registers.a
                &&& t.registers.b == s.registers.b
                &&& t.registers.d == s.registers.d
                &&& t.registers.e == s.registers.e
                &&& t.registers.h == s.registers.h
                &&& t.registers.l == s.registers.l
                &&& t.registers.f == s.registers.f
                &&& t.memory == s.memory
                &&& t.sp == s.sp
                &&& t.pc == s.pc
                &&& next as int == (s.pc + 1) % 0x10000
                &&& cycles == 4
            }
        }),
        ({
            let (t, next, cycles) = crate::cpu::spec_execute(s, Instruction::LD(LoadType::Byte(LoadByteTarget::C, LoadByteSource::C)));
            {
                &&& t.registers.c == s.registers.c
                &&& t.registers.a == s.registers.a
                &&& t.registers.b == s.registers.b
                &&& t.registers.d == s.registers.d
                &&& t.registers.e == s.registers.e
                &&& t.registers.h == s.registers.h
                &&& t.registers.l == s.registers.l
                &&& t.registers.f == s.registers.f
                &&& t.memory == s.memory
                &&& t.sp == s.sp
                &&& t.pc == s.pc
                &&& next as int == (s.pc + 1) % 0x10000
                &&& cycles == 4
            }
        }),
        ({
            let (t, next, cycles) = crate::cpu::spec_execute(s, Instruction::LD(LoadType::Byte(LoadByteTarget::C, LoadByteSource::D)));
            {
                &&& t.registers.c == s.registers.d
                &&& t.registers.a == s.registers.a
                &&& t.registers.b == s.registers.b
                &&& t.registers.d == s.registers.d
                &&& t.registers.e == s.registers.e
                &&& t.registers.h == s.registers.h
                &&& t.registers.l == s.registers.l
                &&& t.registers.f == s.registers.f
                &&& t.memory == s.memory
                &&& t.sp == s.sp
                &&& t.pc == s.pc
                &&& next as int == (s.pc + 1) % 0x10000
                &&& cycles == 4
            }
        }),
        ({
            let (t, next, cycles) = crate::cpu::spec_execute(s, Instruction::LD(LoadType::Byte(LoadByteTarget::C, LoadByteSource::E)));
            {
                &&& t.registers.c == s.registers.e
                &&& t.registers.a == s.registers.a
                &&& t.registers.b == s.registers.b
                &&& t.registers.d == s.registers.d
                &&& t.registers.e == s.registers.e
                &&& t.registers.h == s.registers.h
                &&& t.registers.l == s.registers.l
                &&& t.registers.f == s.registers.f
                &&& t.memory == s.memory
                &&& t.sp == s.sp
                &&& t.pc == s.pc
                &&& next as int == (s.pc + 1) % 0x10000
                &&& cycles == 4
            }
        }),
        ({
            let (t, next, cycles) = crate::cpu::spec_execute(s, Instruction::LD(LoadType::Byte(LoadByteTarget::C, LoadByteSource::H)));
            {
                &&& t.registers.c == s.registers.h
                &&& t.registers.a == s.registers.a
                &&& t.registers.b == s.registers.b
                &&& t.registers.d == s.registers.d
                &&& t.registers.e == s.registers.e
                &&& t.registers.h == s.registers.h
                &&& t.registers.l == s.registers.l
                &&& t.registers.f == s.registers.f
                &&& t.memory == s.memory
                &&& t.sp == s.sp
                &&& t.pc == s.pc
                &&& next as int == (s.pc + 1) % 0x10000
                &&& cycles == 4
            }
        }),
        ({
            let (t, next, cycles) = crate::cpu::spec_execute(s, Instruction::LD(LoadType::Byte(LoadByteTarget::C, LoadByteSource::L)));
            {
                &&& t.registers.c == s.registers.l
                &&& t.registers.a == s.registers.a
                &&& t.registers.b == s.registers.b
                &&& t.registers.d == s.registers.d
                &&& t.registers.e == s.registers.e
                &&& t.registers.h == s.registers.h
                &&& t.registers.l == s.registers.l
                &&& t.registers.f == s.registers.f
                &&& t.memory == s.memory
                &&& t.sp == s.sp
                &&& t.pc == s.pc
                &&& next as int == (s.pc + 1) % 0x10000
                &&& cycles == 4
            }
        }),
        ({
            let (t, next, cycles) = crate::cpu::spec_execute(s, Instruction::LD(LoadType::Byte(LoadByteTarget::C, LoadByteSource::D8)));
            {
                &&& t.registers.c == s.memory[((s.pc + 1) % 0x10000) as int]
                &&& t.registers.a == s.registers.a
                &&& t.registers.b == s.registers.b
                &&& t.registers.d == s.registers.d
                &&& t.registers.e == s.registers.e
                &&& t.registers.h == s.registers.h
                &&& t.registers.l == s.registers.l
                &&& t.registers.f == s.registers.f
                &&& t.memory == s.memory
                &&& t.sp == s.sp
                &&& t.pc == s.pc
                &&& next as int == (s.pc + 2) % 0x10000
                &&& cycles == 8
            }
        }),
        ({
            let (t, next, cycles) = crate::cpu::spec_execute(s, Instruction::LD(LoadType::Byte(LoadByteTarget::C, LoadByteSource::HLI)));
            {
                &&& t.registers.c == s.memory[(256 * s.registers.h + s.registers.l)]
                &&& t.registers.a == s.registers.a
                &&& t.registers.b == s.registers.b
                &&& t.registers.d == s.registers.d
                &&& t.registers.e == s.registers.e
                &&& t.registers.h == s.registers.h
                &&& t.registers.l == s.registers.l
                &&& t.registers.f == s.registers.f
                &&& t.memory == s.memory
                &&& t.sp == s.sp
                &&& t.pc == s.pc
                &&& next as int == (s.pc + 1) % 0x10000
                &&& cycles == 8
            }
        }),
{
}

/// `LD D, x` stores the value of `x` (a register, the byte at HL, or the
/// byte after the opcode) in D and changes nothing else.
pub proof fn lemma_load_byte_into_d(s: CpuState)
    ensures
        ({
            let (t, next, cycles) = crate::cpu::spec_execute(s, Instruction::LD(LoadType::Byte(LoadByteTarget::D, LoadByteSource::A)));
            {
                &&& t.registers.d == s.registers.a
                &&& t.registers.a == s.registers.a
                &&& t.registers.b == s.registers.b
                &&& t.registers.c == s.registers.c
                &&& t.registers.e == s.registers.e
                &&& t.registers.h == s.registers.h
                &&& t.registers.l == s.registers.l
                &&& t.registers.f == s.registers.f
                &&& t.memory == s.memory
                &&& t.sp == s.sp
                &&& t.pc == s.pc
                &&& next as int == (s.pc + 1) % 0x10000
                &&& cycles == 4
            }
        }),
        ({
            let (t, next, cycles) = crate::cpu::spec_execute(s, Instruction::LD(LoadType::Byte(LoadByteTarget::D, LoadByteSource::B)));
            {
                &&& t.registers.d == s.registers.b
                &&& t.registers.a == s.registers.a
                &&& t.registers.b == s.registers.b
                &&& t.registers.c == s.registers.c
                &&& t.registers.e == s.registers.e
                &&& t.registers.h == s.registers.h
                &&& t.registers.l == s.registers.l
                &&& t.registers.f == s.registers.f
                &&& t.memory == s.memory
                &&& t.sp == s.sp
                &&& t.pc == s.pc
                &&& next as int == (s.pc + 1) % 0x10000
                &&& cycles == 4
            }
        }),
        ({
            let (t, next, cycles) = crate::cpu::spec_execute(s, Instruction::LD(LoadType::Byte(LoadByteTarget::D, LoadByteSource::C)));
            {
                &&& t.registers.d == s.registers.c
                &&& t.registers.a == s.registers.a
                &&& t.registers.b == s.registers.b
                &&& t.registers.c == s.registers.c
                &&& t.registers.e == s.registers.e
                &&& t.registers.h == s.registers.h
                &&& t.registers.l == s.registers.l
                &&& t.registers.f == s.registers.f
                &&& t.memory == s.memory
                &&& t.sp == s.sp
                &&& t.pc == s.pc
                &&& next as int == (s.pc + 1) % 0x10000
                &&& cycles == 4
            }
        }),
        ({
            let (t, next, cycles) = crate::cpu::spec_execute(s, Instruction::LD(LoadType::Byte(LoadByteTarget::D, LoadByteSource::D)));
            {
                &&& t.registers.d == s.registers.d
                &&& t.registers.a == s.registers.a
                &&& t.registers.b == s.registers.b
                &&& t.registers.c == s.registers.c
                &&& t.registers.e == s.registers.e
                &&& t.registers.h == s.registers.h
                &&& t.registers.l == s.registers.l
                &&& t.registers.f == s.registers.f
                &&& t.memory == s.memory
                &&& t.sp == s.sp
                &&& t.pc == s.pc
                &&& next as int == (s.pc + 1) % 0x10000
                &&& cycles == 4
            }
        }),
        ({
            let (t, next, cycles) = crate::cpu::spec_execute(s, Instruction::LD(LoadType::Byte(LoadByteTarget::D, LoadByteSource::E)));
            {
                &&& t.registers.d == s.registers.e
                &&& t.registers.a == s.registers.a
                &&& t.registers.b == s.registers.b
                &&& t.registers.c == s.registers.c
                &&& t.registers.e == s.registers.e
                &&& t.registers.h == s.registers.h
                &&& t.registers.l == s.registers.l
                &&& t.registers.f == s.registers.f
                &&& t.memory == s.memory
                &&& t.sp == s.sp
                &&& t.pc == s.pc
                &&& next as int == (s.pc + 1) % 0x10000
                &&& cycles == 4
            }
        }),
        ({
            let (t, next, cycles) = crate::cpu::spec_execute(s, Instruction::LD(LoadType::Byte(LoadByteTarget::D, LoadByteSource::H)));
            {
                &&& t.registers.d == s.registers.h
                &&& t.registers.a == s.registers.a
                &&& t.registers.b == s.registers.b
                &&& t.registers.c == s.registers.c
                &&& t.registers.e == s.registers.e
                &&& t.registers.h == s.registers.h
                &&& t.registers.l == s.registers.l
                &&& t.registers.f == s.registers.f
                &&& t.memory == s.memory
                &&& t.sp == s.sp
                &&& t.pc == s.pc
                &&& next as int == (s.pc + 1) % 0x10000
                &&& cycles == 4
            }
        }),
        ({
            let (t, next, cycles) = crate::cpu::spec_execute(s, Instruction::LD(LoadType::Byte(LoadByteTarget::D, LoadByteSource::L)));
            {
                &&& t.registers.d == s.registers.l
                &&& t.registers.a == s.registers.a
                &&& t.registers.b == s.registers.b
                &&& t.registers.c == s.registers.c
                &&& t.registers.e == s.registers.e
                &&& t.registers.h == s.registers.h
                &&& t.registers.l == s.registers.l
                &&& t.registers.f == s.registers.f
                &&& t.memory == s.memory
                &&& t.sp == s.sp
                &&& t.pc == s.pc
                &&& next as int == (s.pc + 1) % 0x10000
                &&& cycles == 4
            }
        }),
        ({
            let (t, next, cycles) = crate::cpu::spec_execute(s, Instruction::LD(LoadType::Byte(LoadByteTarget::D, LoadByteSource::D8)));
            {
                &&& t.registers.d == s.memory[((s.pc + 1) % 0x10000) as int]
                &&& t.registers.a == s.registers.a
                &&& t.registers.b == s.registers.b
                &&& t.registers.c == s.registers.c
                &&& t.registers.e == s.registers.e
                &&& t.registers.h == s.registers.h
                &&& t.registers.l == s.registers.l
                &&& t.registers.f == s.registers.f
                &&& t.memory == s.memory
                &&& t.sp == s.sp
                &&& t.pc == s.pc
                &&& next as int == (s.pc + 2) % 0x10000
                &&& cycles == 8
            }
        }),
        ({
            let (t, next, cycles) = crate::cpu::spec_execute(s, Instruction::LD(LoadType::Byte(LoadByteTarget::D, LoadByteSource::HLI)));
            {
                &&& t.registers.d == s.memory[(256 * s.registers.h + s.registers.l)]
                &&& t.registers.a == s.registers.a
                &&& t.registers.b == s.registers.b
                &&& t.registers.c == s.registers.c
                &&& t.registers.e == s.registers.e
                &&& t.registers.h == s.registers.h
                &&& t.registers.l == s.registers.l
                &&& t.registers.f == s.registers.f
                &&& t.memory == s.memory
                &&& t.sp == s.sp
                &&& t.pc == s.pc
                &&& next as int == (s.pc + 1) % 0x10000
                &&& cycles == 8
            }
        }),
{
}

/// `LD E, x` stores the value of `x` (a register, the byte at HL, or the
/// byte after the opcode) in E and changes nothing else.
pub proof fn lemma_load_byte_into_e(s: CpuState)
    ensures
        ({
            let (t, next, cycles) = crate::cpu::spec_execute(s, Instruction::LD(LoadType::Byte(LoadByteTarget::E, LoadByteSource::A)));
            {
                &&& t.registers.e == s.registers.a
                &&& t.registers.a == s.registers.a
                &&& t.registers.b == s.registers.b
                &&& t.registers.c == s.registers.c
                &&& t.registers.d == s.registers.d
                &&& t.registers.h == s.registers.h
                &&& t.registers.l == s.registers.l
                &&& t.registers.f == s.registers.f
                &&& t.memory == s.memory
                &&& t.sp == s.sp
                &&& t.pc == s.pc
                &&& next as int == (s.pc + 1) % 0x10000
                &&& cycles == 4
            }
        }),
        ({
            let (t, next, cycles) = crate::cpu::spec_execute(s, Instruction::LD(LoadType::Byte(LoadByteTarget::E, LoadByteSource::B)));
            {
                &&& t.registers.e == s.registers.b
                &&& t.registers.a == s.registers.a
                &&& t.registers.b == s.registers.b
                &&& t.registers.c == s.registers.c
                &&& t.registers.d == s.registers.d
                &&& t.registers.h == s.registers.h
                &&& t.registers.l == s.registers.l
                &&& t.registers.f == s.registers.f
                &&& t.memory == s.memory
                &&& t.sp == s.sp
                &&& t.pc == s.pc
                &&& next as int == (s.pc + 1) % 0x10000
                &&& cycles == 4
            }
        }),
        ({
            let (t, next, cycles) = crate::cpu::spec_execute(s, Instruction::LD(LoadType::Byte(LoadByteTarget::E, LoadByteSource::C)));
            {
                &&& t.registers.e == s.registers.c
                &&& t.registers.a == s.registers.a
                &&& t.registers.b == s.registers.b
                &&& t.registers.c == s.registers.c
                &&& t.registers.d == s.registers.d
                &&& t.registers.h == s.registers.h
                &&& t.registers.l == s.registers.l
                &&& t.registers.f == s.registers.f
                &&& t.memory == s.memory
                &&& t.sp == s.sp
                &&& t.pc == s.pc
                &&& next as int == (s.pc + 1) % 0x10000
                &&& cycles == 4
            }
        }),
        ({
            let (t, next, cycles) = crate::cpu::spec_execute(s, Instruction::LD(LoadType::Byte(LoadByteTarget::E, LoadByteSource::D)));
            {
                &&& t.registers.e == s.registers.d
                &&& t.registers.a == s.registers.a
                &&& t.registers.b == s.registers.b
                &&& t.registers.c == s.registers.c
                &&& t.registers.d == s.registers.d
                &&& t.registers.h == s.registers.h
                &&& t.registers.l == s.registers.l
                &&& t.registers.f == s.registers.f
                &&& t.memory == s.memory
                &&& t.sp == s.sp
                &&& t.pc == s.pc
                &&& next as int == (s.pc + 1) % 0x10000
                &&& cycles == 4
            }
        }),
        ({
            let (t, next, cycles) = crate::cpu::spec_execute(s, Instruction::LD(LoadType::Byte(LoadByteTarget::E, LoadByteSource::E)));
            {
                &&& t.registers.e == s.registers.e
                &&& t.registers.a == s.registers.a
                &&& t.registers.b == s.registers.b
                &&& t.registers.c == s.registers.c
                &&& t.registers.d == s.registers.d
                &&& t.registers.h == s.registers.h
                &&& t.registers.l == s.registers.l
                &&& t.registers.f == s.registers.f
                &&& t.memory == s.memory
                &&& t.sp == s.sp
                &&& t.pc == s.pc
                &&& next as int == (s.pc + 1) % 0x10000
                &&& cycles == 4
            }
        }),
        ({
            let (t, next, cycles) = crate::cpu::spec_execute(s, Instruction::LD(LoadType::Byte(LoadByteTarget::E, LoadByteSource::H)));
            {
                &&& t.registers.e == s.registers.h
                &&& t.registers.a == s.registers.a
                &&& t.registers.b == s.registers.b
                &&& t.registers.c == s.registers.c
                &&& t.registers.d == s.registers.d
                &&& t.registers.h == s.registers.h
                &&& t.registers.l == s.registers.l
                &&& t.registers.f == s.registers.f
                &&& t.memory == s.memory
                &&& t.sp == s.sp
                &&& t.pc == s.pc
                &&& next as int == (s.pc + 1) % 0x10000
                &&& cycles == 4
            }
        }),
        ({
            let (t, next, cycles) = crate::cpu::spec_execute(s, Instruction::LD(LoadType::Byte(LoadByteTarget::E, LoadByteSource::L)));
            {
                &&& t.registers.e == s.registers.l
                &&& t.registers.a == s.registers.a
                &&& t.registers.b == s.registers.b
                &&& t.registers.c == s.registers.c
                &&& t.registers.d == s.registers.d
                &&& t.registers.h == s.registers.h
                &&& t.registers.l == s.registers.l
                &&& t.registers.f == s.registers.f
                &&& t.memory == s.memory
                &&& t.sp == s.sp
                &&& t.pc == s.pc
                &&& next as int == (s.pc + 1) % 0x10000
                &&& cycles == 4
            }
        }),
        ({
            let (t, next, cycles) = crate::cpu::spec_execute(s, Instruction::LD(LoadType::Byte(LoadByteTarget::E, LoadByteSource::D8)));
            {
                &&& t.registers.e == s.memory[((s.pc + 1) % 0x10000) as int]
                &&& t.registers.a == s.registers.a
                &&& t.registers.b == s.registers.b
                &&& t.registers.c == s.registers.c
                &&& t.registers.d == s.registers.d
                &&& t.registers.h == s.registers.h
                &&& t.registers.l == s.registers.l
                &&& t.registers.f == s.registers.f
                &&& t.memory == s.memory
                &&& t.sp == s.sp
                &&& t.pc == s.pc
                &&& next as int == (s.pc + 2) % 0x10000
                &&& cycles == 8
            }
        }),
        ({
            let (t, next, cycles) = crate::cpu::spec_execute(s, Instruction::LD(LoadType::Byte(LoadByteTarget::E, LoadByteSource::HLI)));
            {
                &&& t.registers.e == s.memory[(256 * s.registers.h + s.registers.l)]
                &&& t.registers.a == s.registers.a
                &&& t.registers.b == s.registers.b
                &&& t.registers.c == s.registers.c
                &&& t.registers.d == s.registers.d
                &&& t.registers.h == s.registers.h
                &&& t.registers.l == s.registers.l
                &&& t.registers.f == s.registers.f
                &&& t.memory == s.memory
                &&& t.sp == s.sp
                &&& t.pc == s.pc
                &&& next as int == (s.pc + 1) % 0x10000
                &&& cycles == 8
            }
        }),
{
}

/// `LD H, x` stores the value of `x` (a register, the byte at HL, or the
/// byte after the opcode) in H and changes nothing else.
pub proof fn lemma_load_byte_into_h(s: CpuState)
    ensures
        ({
            let (t, next, cycles) = crate::cpu::spec_execute(s, Instruction::LD(LoadType::Byte(LoadByteTarget::H, LoadByteSource::A)));
            {
                &&& t.registers.h == s.registers.a
                &&& t.registers.a == s.registers.a
                &&& t.registers.b == s.registers.b
                &&& t.registers.c == s.registers.c
                &&& t.registers.d == s.registers.d
                &&& t.registers.e == s.registers.e
                &&& t.registers.l == s.registers.l
                &&& t.registers.f == s.registers.f
                &&& t.memory == s.memory
                &&& t.sp == s.sp
                &&& t.pc == s.pc
                &&& next as int == (s.pc + 1) % 0x10000
                &&& cycles == 4
            }
        }),
        ({
            let (t, next, cycles) = crate::cpu::spec_execute(s, Instruction::LD(LoadType::Byte(LoadByteTarget::H, LoadByteSource::B)));
            {
                &&& t.registers.h == s.registers.b
                &&& t.registers.a == s.registers.a
                &&& t.registers.b == s.registers.b
                &&& t.registers.c == s.registers.c
                &&& t.registers.d == s.registers.d
                &&& t.registers.e == s.registers.e
                &&& t.registers.l == s.registers.l
                &&& t.registers.f == s.registers.f
                &&& t.memory == s.memory
                &&& t.sp == s.sp
                &&& t.pc == s.pc
                &&& next as int == (s.pc + 1) % 0x10000
                &&& cycles == 4
            }
        }),
        ({
            let (t, next, cycles) = crate::cpu::spec_execute(s, Instruction::LD(LoadType::Byte(LoadByteTarget::H, LoadByteSource::C)));
            {
                &&& t.registers.h == s.registers.c
                &&& t.registers.a == s.registers.a
                &&& t.registers.b == s.registers.b
                &&& t.registers.c == s.registers.c
                &&& t.registers.d == s.registers.d
                &&& t.registers.e == s.registers.e
                &&& t.registers.l == s.registers.l
                &&& t.registers.f == s.registers.f
                &&& t.memory == s.memory
                &&& t.sp == s.sp
                &&& t.pc == s.pc
                &&& next as int == (s.pc + 1) % 0x10000
                &&& cycles == 4
            }
        }),
        ({
            let (t, next, cycles) = crate::cpu::spec_execute(s, Instruction::LD(LoadType::Byte(LoadByteTarget::H, LoadByteSource::D)));
            {
                &&& t.registers.h == s.registers.d
                &&& t.registers.a == s.registers.a
                &&& t.registers.b == s.registers.b
                &&& t.registers.c == s.registers.c
                &&& t.registers.d == s.registers.d
                &&& t.registers.e == s.registers.e
                &&& t.registers.l == s.registers.l
                &&& t.registers.f == s.registers.f
                &&& t.memory == s.memory
                &&& t.sp == s.sp
                &&& t.pc == s.pc
                &&& next as int == (s.pc + 1) % 0x10000
                &&& cycles == 4
            }
        }),
        ({
            let (t, next, cycles) = crate::cpu::spec_execute(s, Instruction::LD(LoadType::Byte(LoadByteTarget::H, LoadByteSource::E)));
            {
                &&& t.registers.h == s.registers.e
                &&& t.registers.a == s.registers.a
                &&& t.registers.b == s.registers.b
                &&& t.registers.c == s.registers.c
                &&& t.registers.d == s.registers.d
                &&& t.registers.e == s.registers.e
                &&& t.registers.l == s.registers.l
                &&& t.registers.f == s.registers.f
                &&& t.memory == s.memory
                &&& t.sp == s.sp
                &&& t.pc == s.pc
                &&& next as int == (s.pc + 1) % 0x10000
                &&& cycles == 4
            }
        }),
        ({
            let (t, next, cycles) = crate::cpu::spec_execute(s, Instruction::LD(LoadType::Byte(LoadByteTarget::H, LoadByteSource::H)));
            {
                &&& t.registers.h == s.registers.h
                &&& t.registers.a == s.registers.a
                &&& t.registers.b == s.registers.b
                &&& t.registers.c == s.registers.c
                &&& t.registers.d == s.registers.d
                &&& t.registers.e == s.registers.e
                &&& t.registers.l == s.registers.l
                &&& t.registers.f == s.registers.f
                &&& t.memory == s.memory
                &&& t.sp == s.sp
                &&& t.pc == s.pc
                &&& next as int == (s.pc + 1) % 0x10000
                &&& cycles == 4
            }
        }),
        ({
            let (t, next, cycles) = crate::cpu::spec_execute(s, Instruction::LD(LoadType::Byte(LoadByteTarget::H, LoadByteSource::L)));
            {
                &&& t.registers.h == s.registers.l
                &&& t.registers.a == s.registers.a
                &&& t.registers.b == s.registers.b
                &&& t.registers.c == s.registers.c
                &&& t.registers.d == s.registers.d
                &&& t.registers.e == s.registers.e
                &&& t.registers.l == s.registers.l
                &&& t.registers.f == s.registers.f
                &&& t.memory == s.memory
                &&& t.sp == s.sp
                &&& t.pc == s.pc
                &&& next as int == (s.pc + 1) % 0x10000
                &&& cycles == 4
            }
        }),
        ({
            let (t, next, cycles) = crate::cpu::spec_execute(s, Instruction::LD(LoadType::Byte(LoadByteTarget::H, LoadByteSource::D8)));
            {
                &&& t.registers.h == s.memory[((s.pc + 1) % 0x10000) as int]
                &&& t.registers.a == s.registers.a
                &&& t.registers.b == s.registers.b
                &&& t.registers.c == s.registers.c
                &&& t.registers.d == s.registers.d
                &&& t.registers.e == s.registers.e
                &&& t.registers.l == s.registers.l
                &&& t.registers.f == s.registers.f
                &&& t.memory == s.memory
                &&& t.sp == s.sp
                &&& t.pc == s.pc
                &&& next as int == (s.pc + 2) % 0x10000
                &&& cycles == 8
            }
        }),
        ({
            let (t, next, cycles) = crate::cpu::spec_execute(s, Instruction::LD(LoadType::Byte(LoadByteTarget::H, LoadByteSource::HLI)));
            {
                &&& t.registers.h == s.memory[(256 * s.registers.h + s.registers.l)]
                &&& t.registers.a == s.registers.a
                &&& t.registers.b == s.registers.b
                &&& t.registers.c == s.registers.c
                &&& t.registers.d == s.registers.d
                &&& t.registers.e == s.registers.e
                &&& t.registers.l == s.registers.l
                &&& t.registers.f == s.registers.f
                &&& t.memory == s.memory
                &&& t.sp == s.sp
                &&& t.pc == s.pc
                &&& next as int == (s.pc + 1) % 0x10000
                &&& cycles == 8
            }
        }),
{
}

/// `LD L, x` stores the value of `x` (a register, the byte at HL, or the
/// byte after the opcode) in L and changes nothing else.
pub proof fn lemma_load_byte_into_l(s: CpuState)
    ensures
        ({
            let (t, next, cycles) = crate::cpu::spec_execute(s, Instruction::LD(LoadType::Byte(LoadByteTarget::L, LoadByteSource::A)));
            {
                &&& t.registers.l == s.registers.a
                &&& t.registers.a == s.registers.a
                &&& t.registers.b == s.registers.b
                &&& t.registers.c == s.registers.c
                &&& t.registers.d == s.registers.d
                &&& t.registers.e == s.registers.e
                &&& t.registers.h == s.registers.h
                &&& t.registers.f == s.registers.f
                &&& t.memory == s.memory
                &&& t.sp == s.sp
                &&& t.pc == s.pc
                &&& next as int == (s.pc + 1) % 0x10000
                &&& cycles == 4
            }
        }),
        ({
            let (t, next, cycles) = crate::cpu::spec_execute(s, Instruction::LD(LoadType::Byte(LoadByteTarget::L, LoadByteSource::B)));
            {
                &&& t.registers.l == s.registers.b
                &&& t.registers.a == s.registers.a
                &&& t.registers.b == s.registers.b
                &&& t.registers.c == s.registers.c
                &&& t.registers.d == s.registers.d
                &&& t.registers.e == s.registers.e
                &&& t.registers.h == s.registers.h
                &&& t.registers.f == s.registers.f
                &&& t.memory == s.memory
                &&& t.sp == s.sp
                &&& t.pc == s.pc
                &&& next as int == (s.pc + 1) % 0x10000
                &&& cycles == 4
            }
        }),
        ({
            let (t, next, cycles) = crate::cpu::spec_execute(s, Instruction::LD(LoadType::Byte(LoadByteTarget::L, LoadByteSource::C)));
            {
                &&& t.registers.l == s.registers.c
                &&& t.registers.a == s.registers.a
                &&& t.registers.b == s.registers.b
                &&& t.registers.c == s.registers.c
                &&& t.registers.d == s.registers.d
                &&& t.registers.e == s.registers.e
                &&& t.registers.h == s.registers.h
                &&& t.registers.f == s.registers.f
                &&& t.memory == s.memory
                &&& t.sp == s.sp
                &&& t.pc == s.pc
                &&& next as int == (s.pc + 1) % 0x10000
                &&& cycles == 4
            }
        }),
        ({
            let (t, next, cycles) = crate::cpu::spec_execute(s, Instruction::LD(LoadType::Byte(LoadByteTarget::L, LoadByteSource::D)));
            {
                &&& t.registers.l == s.registers.d
                &&& t.registers.a == s.registers.a
                &&& t.registers.b == s.registers.b
                &&& t.registers.c == s.registers.c
                &&& t.registers.d == s.registers.d
                &&& t.registers.e == s.registers.e
                &&& t.registers.h == s.registers.h
                &&& t.registers.f == s.registers.f
                &&& t.memory == s.memory
                &&& t.sp == s.sp
                &&& t.pc == s.pc
                &&& next as int == (s.pc + 1) % 0x10000
                &&& cycles == 4
            }
        }),
        ({
            let (t, next, cycles) = crate::cpu::spec_execute(s, Instruction::LD(LoadType::Byte(LoadByteTarget::L, LoadByteSource::E)));
            {
                &&& t.registers.l == s.registers.e
                &&& t.registers.a == s.registers.a
                &&& t.registers.b == s.registers.b
                &&& t.registers.c == s.registers.c
                &&& t.registers.d == s.registers.d
                &&& t.registers.e == s.registers.e
                &&& t.registers.h == s.registers.h
                &&& t.registers.f == s.registers.f
                &&& t.memory == s.memory
                &&& t.sp == s.sp
                &&& t.pc == s.pc
                &&& next as int == (s.pc + 1) % 0x10000
                &&& cycles == 4
            }
        }),
        ({
            let (t, next, cycles) = crate::cpu::spec_execute(s, Instruction::LD(LoadType::Byte(LoadByteTarget::L, LoadByteSource::H)));
            {
                &&& t.registers.l == s.registers.h
                &&& t.registers.a == s.registers.a
                &&& t.registers.b == s.registers.b
                &&& t.registers.c == s.registers.c
                &&& t.registers.d == s.registers.d
                &&& t.registers.e == s.registers.e
                &&& t.registers.h == s.registers.h
                &&& t.registers.f == s.registers.f
                &&& t.memory == s.memory
                &&& t.sp == s.sp
                &&& t.pc == s.pc
                &&& next as int == (s.pc + 1) % 0x10000
                &&& cycles == 4
            }
        }),
        ({
            let (t, next, cycles) = crate::cpu::spec_execute(s, Instruction::LD(LoadType::Byte(LoadByteTarget::L, LoadByteSource::L)));
            {
                &&& t.registers.l == s.registers.l
                &&& t.registers.a == s.registers.a
                &&& t.registers.b == s.registers.b
                &&& t.registers.c == s.registers.c
                &&& t.registers.d == s.registers.d
                &&& t.registers.e == s.registers.e
                &&& t.registers.h == s.registers.h
                &&& t.registers.f == s.registers.f
                &&& t.memory == s.memory
                &&& t.sp == s.sp
                &&& t.pc == s.pc
                &&& next as int == (s.pc + 1) % 0x10000
                &&& cycles == 4
            }
        }),
        ({
            let (t, next, cycles) = crate::cpu::spec_execute(s, Instruction::LD(LoadType::Byte(LoadByteTarget::L, LoadByteSource::D8)));
            {
                &&& t.registers.l == s.memory[((s.pc + 1) % 0x10000) as int]
                &&& t.registers.a == s.registers.a
                &&& t.registers.b == s.registers.b
                &&& t.registers.c == s.registers.c
                &&& t.registers.d == s.registers.d
                &&& t.registers.e == s.registers.e
                &&& t.registers.h == s.registers.h
                &&& t.registers.f == s.registers.f
                &&& t.memory == s.memory
                &&& t.sp == s.sp
                &&& t.pc == s.pc
                &&& next as int == (s.pc + 2) % 0x10000
                &&& cycles == 8
            }
        }),
        ({
            let (t, next, cycles) = crate::cpu::spec_execute(s, Instruction::LD(LoadType::Byte(LoadByteTarget::L, LoadByteSource::HLI)));
            {
                &&& t.registers.l == s.memory[(256 * s.registers.h + s.registers.l)]
                &&& t.registers.a == s.registers.a
                &&& t.registers.b == s.registers.b
                &&& t.registers.c == s.registers.c
                &&& t.registers.d == s.registers.d
                &&& t.registers.e == s.registers.e
                &&& t.registers.h == s.registers.h
                &&& t.registers.f == s.registers.f
                &&& t.memory == s.memory
                &&& t.sp == s.sp
                &&& t.pc == s.pc
                &&& next as int == (s.pc + 1) % 0x10000
                &&& cycles == 8
            }
        }),
{
}

/// `LD HLI, x` stores the value of `x` (a register, the byte at HL, or the
/// byte after the opcode) in the byte at HL and changes nothing else.
pub proof fn lemma_load_byte_into_hli(s: CpuState)
    requires
        s.memory.len() == 0x10000,
    ensures
        ({
            let (t, next, cycles) = crate::cpu::spec_execute(s, Instruction::LD(LoadType::Byte(LoadByteTarget::HLI, LoadByteSource::A)));
            {
                &&& t.memory == s.memory.update((256 * s.registers.h + s.registers.l), s.registers.a)
                &&& t.registers.a == s.registers.a
                &&& t.registers.b == s.registers.b
                &&& t.registers.c == s.registers.c
                &&& t.registers.d == s.registers.d
                &&& t.registers.e == s.registers.e
                &&& t.registers.h == s.registers.h
                &&& t.registers.l == s.registers.l
                &&& t.registers.f == s.registers.f
                &&& t.sp == s.sp
                &&& t.pc == s.pc
                &&& next as int == (s.pc + 1) % 0x10000
                &&& cycles == 4
            }
        }),
        ({
            let (t, next, cycles) = crate::cpu::spec_execute(s, Instruction::LD(LoadType::Byte(LoadByteTarget::HLI, LoadByteSource::B)));
            {
                &&& t.memory == s.memory.update((256 * s.registers.h + s.registers.l), s.registers.b)
                &&& t.registers.a == s.registers.a
                &&& t.registers.b == s.registers.b
                &&& t.registers.c == s.registers.c
                &&& t.registers.d == s.registers.d
                &&& t.registers.e == s.registers.e
                &&& t.registers.h == s.registers.h
                &&& t.registers.l == s.registers.l
                &&& t.registers.f == s.registers.f
                &&& t.sp == s.sp
                &&& t.pc == s.pc
                &&& next as int == (s.pc + 1) % 0x10000
                &&& cycles == 4
            }
        }),
        ({
            let (t, next, cycles) = crate::cpu::spec_execute(s, Instruction::LD(LoadType::Byte(LoadByteTarget::HLI, LoadByteSource::C)));
            {
                &&& t.memory == s.memory.update((256 * s.registers.h + s.registers.l), s.registers.c)
                &&& t.registers.a == s.registers.a
                &&& t.registers.b == s.registers.b
                &&& t.registers.c == s.registers.c
                &&& t.registers.d == s.registers.d
                &&& t.registers.e == s.registers.e
                &&& t.registers.h == s.registers.h
                &&& t.registers.l == s.registers.l
                &&& t.registers.f == s.registers.f
                &&& t.sp == s.sp
                &&& t.pc == s.pc
                &&& next as int == (s.pc + 1) % 0x10000
                &&& cycles == 4
            }
        }),
        ({
            let (t, next, cycles) = crate::cpu::spec_execute(s, Instruction::LD(LoadType::Byte(LoadByteTarget::HLI, LoadByteSource::D)));
            {
                &&& t.memory == s.memory.update((256 * s.registers.h + s.registers.l), s.registers.d)
                &&& t.registers.a == s.registers.a
                &&& t.registers.b == s.registers.b
                &&& t.registers.c == s.registers.c
                &&& t.registers.d == s.registers.d
                &&& t.registers.e == s.registers.e
                &&& t.registers.h == s.registers.h
                &&& t.registers.l == s.registers.l
                &&& t.registers.f == s.registers.f
                &&& t.sp == s.sp
                &&& t.pc == s.pc
                &&& next as int == (s.pc + 1) % 0x10000
                &&& cycles == 4
            }
        }),
        ({
            let (t, next, cycles) = crate::cpu::spec_execute(s, Instruction::LD(LoadType::Byte(LoadByteTarget::HLI, LoadByteSource::E)));
            {
                &&& t.memory == s.memory.update((256 * s.registers.h + s.registers.l), s.registers.e)
                &&& t.registers.a == s.registers.a
                &&& t.registers.b == s.registers.b
                &&& t.registers.c == s.registers.c
                &&& t.registers.d == s.registers.d
                &&& t.registers.e == s.registers.e
                &&& t.registers.h == s.registers.h
                &&& t.registers.l == s.registers.l
                &&& t.registers.f == s.registers.f
                &&& t.sp == s.sp
                &&& t.pc == s.pc
                &&& next as int == (s.pc + 1) % 0x10000
                &&& cycles == 4
            }
        }),
        ({
            let (t, next, cycles) = crate::cpu::spec_execute(s, Instruction::LD(LoadType::Byte(LoadByteTarget::HLI, LoadByteSource::H)));
            {
                &&& t.memory == s.memory.update((256 * s.registers.h + s.registers.l), s.registers.h)
                &&& t.registers.a == s.registers.a
                &&& t.registers.b == s.registers.b
                &&& t.registers.c == s.registers.c
                &&& t.registers.d == s.registers.d
                &&& t.registers.e == s.registers.e
                &&& t.registers.h == s.registers.h
                &&& t.registers.l == s.registers.l
                &&& t.registers.f == s.registers.f
                &&& t.sp == s.sp
                &&& t.pc == s.pc
                &&& next as int == (s.pc + 1) % 0x10000
                &&& cycles == 4
            }
        }),
        ({
            let (t, next, cycles) = crate::cpu::spec_execute(s, Instruction::LD(LoadType::Byte(LoadByteTarget::HLI, LoadByteSource::L)));
            {
                &&& t.memory == s.memory.update((256 * s.registers.h + s.registers.l), s.registers.l)
                &&& t.registers.a == s.registers.a
                &&& t.registers.b == s.registers.b
                &&& t.registers.c == s.registers.c
                &&& t.registers.d == s.registers.d
                &&& t.registers.e == s.registers.e
                &&& t.registers.h == s.registers.h
                &&& t.registers.l == s.registers.l
                &&& t.registers.f == s.registers.f
                &&& t.sp == s.sp
                &&& t.pc == s.pc
                &&& next as int == (s.pc + 1) % 0x10000
                &&& cycles == 4
            }
        }),
        ({
            let (t, next, cycles) = crate::cpu::spec_execute(s, Instruction::LD(LoadType::Byte(LoadByteTarget::HLI, LoadByteSource::D8)));
            {
                &&& t.memory == s.memory.update((256 * s.registers.h + s.registers.l), s.memory[((s.pc + 1) % 0x10000) as int])
                &&& t.registers.a == s.registers.a
                &&& t.registers.b == s.registers.b
                &&& t.registers.c == s.registers.c
                &&& t.registers.d == s.registers.d
                &&& t.registers.e == s.registers.e
                &&& t.registers.h == s.registers.h
                &&& t.registers.l == s.registers.l
                &&& t.registers.f == s.registers.f
                &&& t.sp == s.sp
                &&& t.pc == s.pc
                &&& next as int == (s.pc + 2) % 0x10000
                &&& cycles == 8
            }
        }),
        ({
            let (t, next, cycles) = crate::cpu::spec_execute(s, Instruction::LD(LoadType::Byte(LoadByteTarget::HLI, LoadByteSource::HLI)));
            {
                &&& t.memory == s.memory.update((256 * s.registers.h + s.registers.l), s.memory[(256 * s.registers.h + s.registers.l)])
                &&& t.registers.a == s.registers.a
                &&& t.registers.b == s.registers.b
                &&& t.registers.c == s.registers.c
                &&& t.registers.d == s.registers.d
                &&& t.registers.e == s.registers.e
                &&& t.registers.h == s.registers.h
                &&& t.registers.l == s.registers.l
                &&& t.registers.f == s.registers.f
                &&& t.sp == s.sp
                &&& t.pc == s.pc
                &&& next as int == (s.pc + 1) % 0x10000
                &&& cycles == 8
            }
        }),
{
}

/// Storing A writes A at the named address (BC, DE, HL then HL moved down
/// or up by one, the word after the opcode, or `0xFF00 + C`) and changes
/// nothing else.
pub proof fn lemma_store_a(s: CpuState)
    requires
        s.memory.len() == 0x10000,
    ensures
        ({
            let (t, next, cycles) = crate::cpu::spec_execute(s, Instruction::LD(LoadType::IndirectFromA(Indirect::BCIndirect)));
            {
                &&& t.memory == s.memory.update(256 * s.registers.b + s.registers.c, s.registers.a)
                &&& t.registers.a == s.registers.a
                &&& t.registers.b == s.registers.b
                &&& t.registers.c == s.registers.c
                &&& t.registers.d == s.registers.d
                &&& t.registers.e == s.registers.e
                &&& t.registers.h == s.registers.h
                &&& t.registers.l == s.registers.l
                &&& t.registers.f == s.registers.f
                &&& t.sp == s.sp
                &&& t.pc == s.pc
                &&& next as int == (s.pc + 1) % 0x10000
                &&& cycles == 8
            }
        }),
        ({
            let (t, next, cycles) = crate::cpu::spec_execute(s, Instruction::LD(LoadType::IndirectFromA(Indirect::DEIndirect)));
            {
                &&& t.memory == s.memory.update(256 * s.registers.d + s.registers.e, s.registers.a)
                &&& t.registers.a == s.registers.a
                &&& t.registers.b == s.registers.b
                &&& t.registers.c == s.registers.c
                &&& t.registers.d == s.registers.d
                &&& t.registers.e == s.registers.e
                &&& t.registers.h == s.registers.h
                &&& t.registers.l == s.registers.l
                &&& t.registers.f == s.registers.f
                &&& t.sp == s.sp
                &&& t.pc == s.pc
                &&& next as int == (s.pc + 1) % 0x10000
                &&& cycles == 8
            }
        }),
        ({
            let (t, next, cycles) = crate::cpu::spec_execute(s, Instruction::LD(LoadType::IndirectFromA(Indirect::HLIndirectMinus)));
            {
                &&& t.memory == s.memory.update((256 * s.registers.h + s.registers.l), s.registers.a)
                &&& 256 * t.registers.h + t.registers.l == ((256 * s.registers.h + s.registers.l) + 0x10000 - 1) % 0x10000
                &&& t.registers.a == s.registers.a
                &&& t.registers.b == s.registers.b
                &&& t.registers.c == s.registers.c
                &&& t.registers.d == s.registers.d
                &&& t.registers.e == s.registers.e
                &&& t.registers.f == s.registers.f
                &&& t.sp == s.sp
                &&& t.pc == s.pc
                &&& next as int == (s.pc + 1) % 0x10000
                &&& cycles == 8
            }
        }),
        ({
            let (t, next, cycles) = crate::cpu::spec_execute(s, Instruction::LD(LoadType::IndirectFromA(Indirect::HLIndirectPlus)));
            {
                &&& t.memory == s.memory.update((256 * s.registers.h + s.registers.l), s.registers.a)
                &&& 256 * t.registers.h + t.registers.l == ((256 * s.registers.h + s.registers.l) + 1) % 0x10000
                &&& t.registers.a == s.registers.a
                &&& t.registers.b == s.registers.b
                &&& t.registers.c == s.registers.c
                &&& t.registers.d == s.registers.d
                &&& t.registers.e == s.registers.e
                &&& t.registers.f == s.registers.f
                &&& t.sp == s.sp
                &&& t.pc == s.pc
                &&& next as int == (s.pc + 1) % 0x10000
                &&& cycles == 8
            }
        }),
        ({
            let (t, next, cycles) = crate::cpu::spec_execute(s, Instruction::LD(LoadType::IndirectFromA(Indirect::WordIndirect)));
            {
                &&& t.memory == s.memory.update(s.memory[((s.pc + 1) % 0x10000) as int] + 256 * s.memory[((s.pc + 2) % 0x10000) as int], s.registers.a)
                &&& t.registers.a == s.registers.a
                &&& t.registers.b == s.registers.b
                &&& t.registers.c == s.registers.c
                &&& t.registers.d == s.registers.d
                &&& t.registers.e == s.registers.e
                &&& t.registers.h == s.registers.h
                &&& t.registers.l == s.registers.l
                &&& t.registers.f == s.registers.f
                &&& t.sp == s.sp
                &&& t.pc == s.pc
                &&& next as int == (s.pc + 3) % 0x10000
                &&& cycles == 16
            }
        }),
        ({
            let (t, next, cycles) = crate::cpu::spec_execute(s, Instruction::LD(LoadType::IndirectFromA(Indirect::LastByteIndirect)));
            {
                &&& t.memory == s.memory.update(0xFF00 + s.registers.c, s.registers.a)
                &&& t.registers.a == s.registers.a
                &&& t.registers.b == s.registers.b
                &&& t.registers.c == s.registers.c
                &&& t.registers.d == s.registers.d
                &&& t.registers.e == s.registers.e
                &&& t.registers.h == s.registers.h
                &&& t.registers.l == s.registers.l
                &&& t.registers.f == s.registers.f
                &&& t.sp == s.sp
                &&& t.pc == s.pc
                &&& next as int == (s.pc + 1) % 0x10000
                &&& cycles == 8
            }
        }),
{
}

/// `DEC x` lowers the named register, or the byte at HL, by one modulo 256,
/// sets zero exactly when the old value was one, sets subtract, sets
/// half-carry when the old low nibble was zero, keeps carry and changes
/// nothing else.
pub proof fn lemma_decrement(s: CpuState)
    requires
        s.memory.len() == 0x10000,
    ensures
        ({
            let (t, next, cycles) = crate::cpu::spec_execute(s, Instruction::DEC(ArithmeticSource::A));
            {
                &&& t.registers.a as int == (s.registers.a + 255) % 256
                &&& t.registers.f.zero == (s.registers.a == 1)
                &&& t.registers.f.subtract
                &&& t.registers.f.half_carry == (s.registers.a % 16 == 0)
                &&& t.registers.f.carry == s.registers.f.carry
                &&& t.registers.b == s.registers.b
                &&& t.registers.c == s.registers.c
                &&& t.registers.d == s.registers.d
                &&& t.registers.e == s.registers.e
                &&& t.registers.h == s.registers.h
                &&& t.registers.l == s.registers.l
                &&& t.memory == s.memory
                &&& t.sp == s.sp
                &&& t.pc == s.pc
                &&& next as int == (s.pc + 1) % 0x10000
                &&& cycles == 4
            }
        }),
        ({
            let (t, next, cycles) = crate::cpu::spec_execute(s, Instruction::DEC(ArithmeticSource::B));
            {
                &&& t.registers.b as int == (s.registers.b + 255) % 256
                &&& t.registers.f.zero == (s.registers.b == 1)
                &&& t.registers.f.subtract
                &&& t.registers.f.half_carry == (s.registers.b % 16 == 0)
                &&& t.registers.f.carry == s.registers.f.carry
                &&& t.registers.a == s.registers.a
                &&& t.registers.c == s.registers.c
                &&& t.registers.d == s.registers.d
                &&& t.registers.e == s.registers.e
                &&& t.registers.h == s.registers.h
                &&& t.registers.l == s.registers.l
                &&& t.memory == s.memory
                &&& t.sp == s.sp
                &&& t.pc == s.pc
                &&& next as int == (s.pc + 1) % 0x10000
                &&& cycles == 4
            }
        }),
        ({
            let (t, next, cycles) = crate::cpu::spec_execute(s, Instruction::DEC(ArithmeticSource::C));
            {
                &&& t.registers.c as int == (s.registers.c + 255) % 256
                &&& t.registers.f.zero == (s.registers.c == 1)
                &&& t.registers.f.subtract
                &&& t.registers.f.half_carry == (s.registers.c % 16 == 0)
                &&& t.registers.f.carry == s.registers.f.carry
                &&& t.registers.a == s.registers.a
                &&& t.registers.b == s.registers.b
                &&& t.registers.d == s.registers.d
                &&& t.registers.e == s.registers.e
                &&& t.registers.h == s.registers.h
                &&& t.registers.l == s.registers.l
                &&& t.memory == s.memory
                &&& t.sp == s.sp
                &&& t.pc == s.pc
                &&& next as int == (s.pc + 1) % 0x10000
                &&& cycles == 4
            }
        }),
        ({
            let (t, next, cycles) = crate::cpu::spec_execute(s, Instruction::DEC(ArithmeticSource::D));
            {
                &&& t.registers.d as int == (s.registers.d + 255) % 256
                &&& t.registers.f.zero == (s.registers.d == 1)
                &&& t.registers.f.subtract
                &&& t.registers.f.half_carry == (s.registers.d % 16 == 0)
                &&& t.registers.f.carry == s.registers.f.carry
                &&& t.registers.a == s.registers.a
                &&& t.registers.b == s.registers.b
                &&& t.registers.c == s.registers.c
                &&& t.registers.e == s.registers.e
                &&& t.registers.h == s.registers.h
                &&& t.registers.l == s.registers.l
                &&& t.memory == s.memory
                &&& t.sp == s.sp
                &&& t.pc == s.pc
                &&& next as int == (s.pc + 1) % 0x10000
                &&& cycles == 4
            }
        }),
        ({
            let (t, next, cycles) = crate::cpu::spec_execute(s, Instruction::DEC(ArithmeticSource::E));
            {
                &&& t.registers.e as int == (s.registers.e + 255) % 256
                &&& t.registers.f.zero == (s.registers.e == 1)
                &&& t.registers.f.subtract
                &&& t.registers.f.half_carry == (s.registers.e % 16 == 0)
                &&& t.registers.f.carry == s.registers.f.carry
                &&& t.registers.a == s.registers.a
                &&& t.registers.b == s.registers.b
                &&& t.registers.c == s.registers.c
                &&& t.registers.d == s.registers.d
                &&& t.registers.h == s.registers.h
                &&& t.registers.l == s.registers.l
                &&& t.memory == s.memory
                &&& t.sp == s.sp
                &&& t.pc == s.pc
                &&& next as int == (s.pc + 1) % 0x10000
                &&& cycles == 4
            }
        }),
        ({
            let (t, next, cycles) = crate::cpu::spec_execute(s, Instruction::DEC(ArithmeticSource::H));
            {
                &&& t.registers.h as int == (s.registers.h + 255) % 256
                &&& t.registers.f.zero == (s.registers.h == 1)
                &&& t.registers.f.subtract
                &&& t.registers.f.half_carry == (s.registers.h % 16 == 0)
                &&& t.registers.f.carry == s.registers.f.carry
                &&& t.registers.a == s.registers.a
                &&& t.registers.b == s.registers.b
                &&& t.registers.c == s.registers.c
                &&& t.registers.d == s.registers.d
                &&& t.registers.e == s.registers.e
                &&& t.registers.l == s.registers.l
                &&& t.memory == s.memory
                &&& t.sp == s.sp
                &&& t.pc == s.pc
                &&& next as int == (s.pc + 1) % 0x10000
                &&& cycles == 4
            }
        }),
        ({
            let (t, next, cycles) = crate::cpu::spec_execute(s, Instruction::DEC(ArithmeticSource::L));
            {
                &&& t.registers.l as int == (s.registers.l + 255) % 256
                &&& t.registers.f.zero == (s.registers.l == 1)
                &&& t.registers.f.subtract
                &&& t.registers.f.half_carry == (s.registers.l % 16 == 0)
                &&& t.registers.f.carry == s.registers.f.carry
                &&& t.registers.a == s.registers.a
                &&& t.registers.b == s.registers.b
                &&& t.registers.c == s.registers.c
                &&& t.registers.d == s.registers.d
                &&& t.registers.e == s.registers.e
                &&& t.registers.h == s.registers.h
                &&& t.memory == s.memory
                &&& t.sp == s.sp
                &&& t.pc == s.pc
                &&& next as int == (s.pc + 1) % 0x10000
                &&& cycles == 4
            }
        }),
        ({
            let (t, next, cycles) = crate::cpu::spec_execute(s, Instruction::DEC(ArithmeticSource::HLI));
            {
                &&& t.memory == s.memory.update((256 * s.registers.h + s.registers.l), ((s.memory[(256 * s.registers.h + s.registers.l)] + 255) % 256) as u8)
                &&& t.registers.f.zero == (s.memory[(256 * s.registers.h + s.registers.l)] == 1)
                &&& t.registers.f.subtract
                &&& t.registers.f.half_carry == (s.memory[(256 * s.registers.h + s.registers.l)] % 16 == 0)
                &&& t.registers.f.carry == s.registers.f.carry
                &&& t.registers.a == s.registers.a
                &&& t.registers.b == s.registers.b
                &&& t.registers.c == s.registers.c
                &&& t.registers.d == s.registers.d
                &&& t.registers.e == s.registers.e
                &&& t.registers.h == s.registers.h
                &&& t.registers.l == s.registers.l
                &&& t.sp == s.sp
                &&& t.pc == s.pc
                &&& next as int == (s.pc + 1) % 0x10000
                &&& cycles == 12
            }
        }),
{
}

/// `XOR x` puts `A ^ x` in A, sets zero exactly when A equals `x`, clears
/// the other flags and changes nothing else.
pub proof fn lemma_exclusive_or(s: CpuState)
    ensures
        ({
            let (t, next, cycles) = crate::cpu::spec_execute(s, Instruction::XOR(ArithmeticSource::A));
            {
                &&& t.registers.a == s.registers.a ^ s.registers.a
                &&& t.registers.f.zero == (s.registers.a == s.registers.a)
                &&& !t.registers.f.subtract
                &&& !t.registers.f.half_carry
                &&& !t.registers.f.carry
                &&& t.registers.b == s.registers.b
                &&& t.registers.c == s.registers.c
                &&& t.registers.d == s.registers.d
                &&& t.registers.e == s.registers.e
                &&& t.registers.h == s.registers.h
                &&& t.registers.l == s.registers.l
                &&& t.memory == s.memory
                &&& t.sp == s.sp
                &&& t.pc == s.pc
                &&& next as int == (s.pc + 1) % 0x10000
                &&& cycles == 4
            }
        }),
        ({
            let (t, next, cycles) = crate::cpu::spec_execute(s, Instruction::XOR(ArithmeticSource::B));
            {
                &&& t.registers.a == s.registers.a ^ s.registers.b
                &&& t.registers.f.zero == (s.registers.a == s.registers.b)
                &&& !t.registers.f.subtract
                &&& !t.registers.f.half_carry
                &&& !t.registers.f.carry
                &&& t.registers.b == s.registers.b
                &&& t.registers.c == s.registers.c
                &&& t.registers.d == s.registers.d
                &&& t.registers.e == s.registers.e
                &&& t.registers.h == s.registers.h
                &&& t.registers.l == s.registers.l
                &&& t.memory == s.memory
                &&& t.sp == s.sp
                &&& t.pc == s.pc
                &&& next as int == (s.pc + 1) % 0x10000
                &&& cycles == 4
            }
        }),
        ({
            let (t, next, cycles) = crate::cpu::spec_execute(s, Instruction::XOR(ArithmeticSource::C));
            {
                &&& t.registers.a == s.registers.a ^ s.registers.c
                &&& t.registers.f.zero == (s.registers.a == s.registers.c)
                &&& !t.registers.f.subtract
                &&& !t.registers.f.half_carry
                &&& !t.registers.f.carry
                &&& t.registers.b == s.registers.b
                &&& t.registers.c == s.registers.c
                &&& t.registers.d == s.registers.d
                &&& t.registers.e == s.registers.e
                &&& t.registers.h == s.registers.h
                &&& t.registers.l == s.registers.l
                &&& t.memory == s.memory
                &&& t.sp == s.sp
                &&& t.pc == s.pc
                &&& next as int == (s.pc + 1) % 0x10000
                &&& cycles == 4
            }
        }),
        ({
            let (t, next, cycles) = crate::cpu::spec_execute(s, Instruction::XOR(ArithmeticSource::D));
            {
                &&& t.registers.a == s.registers.a ^ s.registers.d
                &&& t.registers.f.zero == (s.registers.a == s.registers.d)
                &&& !t.registers.f.subtract
                &&& !t.registers.f.half_carry
                &&& !t.registers.f.carry
                &&& t.registers.b == s.registers.b
                &&& t.registers.c == s.registers.c
                &&& t.registers.d == s.registers.d
                &&& t.registers.e == s.registers.e
                &&& t.registers.h == s.registers.h
                &&& t.registers.l == s.registers.l
                &&& t.memory == s.memory
                &&& t.sp == s.sp
                &&& t.pc == s.pc
                &&& next as int == (s.pc + 1) % 0x10000
                &&& cycles == 4
            }
        }),
        ({
            let (t, next, cycles) = crate::cpu::spec_execute(s, Instruction::XOR(ArithmeticSource::E));
            {
                &&& t.registers.a == s.registers.a ^ s.registers.e
                &&& t.registers.f.zero == (s.registers.a == s.registers.e)
                &&& !t.registers.f.subtract
                &&& !t.registers.f.half_carry
                &&& !t.registers.f.carry
                &&& t.registers.b == s.registers.b
                &&& t.registers.c == s.registers.c
                &&& t.registers.d == s.registers.d
                &&& t.registers.e == s.registers.e
                &&& t.registers.h == s.registers.h
                &&& t.registers.l == s.registers.l
                &&& t.memory == s.memory
                &&& t.sp == s.sp
                &&& t.pc == s.pc
                &&& next as int == (s.pc + 1) % 0x10000
                &&& cycles == 4
            }
        }),
        ({
            let (t, next, cycles) = crate::cpu::spec_execute(s, Instruction::XOR(ArithmeticSource::H));
            {
                &&& t.registers.a == s.registers.a ^ s.registers.h
                &&& t.registers.f.zero == (s.registers.a == s.registers.h)
                &&& !t.registers.f.subtract
                &&& !t.registers.f.half_carry
                &&& !t.registers.f.carry
                &&& t.registers.b == s.registers.b
                &&& t.registers.c == s.registers.c
                &&& t.registers.d == s.registers.d
                &&& t.registers.e == s.registers.e
                &&& t.registers.h == s.registers.h
                &&& t.registers.l == s.registers.l
                &&& t.memory == s.memory
                &&& t.sp == s.sp
                &&& t.pc == s.pc
                &&& next as int == (s.pc + 1) % 0x10000
                &&& cycles == 4
            }
        }),
        ({
            let (t, next, cycles) = crate::cpu::spec_execute(s, Instruction::XOR(ArithmeticSource::L));
            {
                &&& t.registers.a == s.registers.a ^ s.registers.l
                &&& t.registers.f.zero == (s.registers.a == s.registers.l)
                &&& !t.registers.f.subtract
                &&& !t.registers.f.half_carry
                &&& !t.registers.f.carry
                &&& t.registers.b == s.registers.b
                &&& t.registers.c == s.registers.c
                &&& t.registers.d == s.registers.d
                &&& t.registers.e == s.registers.e
                &&& t.registers.h == s.registers.h
                &&& t.registers.l == s.registers.l
                &&& t.memory == s.memory
                &&& t.sp == s.sp
                &&& t.pc == s.pc
                &&& next as int == (s.pc + 1) % 0x10000
                &&& cycles == 4
            }
        }),
        ({
            let (t, next, cycles) = crate::cpu::spec_execute(s, Instruction::XOR(ArithmeticSource::HLI));
            {
                &&& t.registers.a == s.registers.a ^ s.memory[(256 * s.registers.h + s.registers.l)]
                &&& t.registers.f.zero == (s.registers.a == s.memory[(256 * s.registers.h + s.registers.l)])
                &&& !t.registers.f.subtract
                &&& !t.registers.f.half_carry
                &&& !t.registers.f.carry
                &&& t.registers.b == s.registers.b
                &&& t.registers.c == s.registers.c
                &&& t.registers.d == s.registers.d
                &&& t.registers.e == s.registers.e
                &&& t.registers.h == s.registers.h
                &&& t.registers.l == s.registers.l
                &&& t.memory == s.memory
                &&& t.sp == s.sp
                &&& t.pc == s.pc
                &&& next as int == (s.pc + 1) % 0x10000
                &&& cycles == 8
            }
        }),
        ({
            let (t, next, cycles) = crate::cpu::spec_execute(s, Instruction::XOR(ArithmeticSource::D8));
            {
                &&& t.registers.a == s.registers.a ^ s.memory[((s.pc + 1) % 0x10000) as int]
                &&& t.registers.f.zero == (s.registers.a == s.memory[((s.pc + 1) % 0x10000) as int])
                &&& !t.registers.f.subtract
                &&& !t.registers.f.half_carry
                &&& !t.registers.f.carry
                &&& t.registers.b == s.registers.b
                &&& t.registers.c == s.registers.c
                &&& t.registers.d == s.registers.d
                &&& t.registers.e == s.registers.e
                &&& t.registers.h == s.registers.h
                &&& t.registers.l == s.registers.l
                &&& t.memory == s.memory
                &&& t.sp == s.sp
                &&& t.pc == s.pc
                &&& next as int == (s.pc + 2) % 0x10000
                &&& cycles == 8
            }
        }),
{
    crate::cpu::alu::lemma_xor_undo(s.registers.a, s.registers.a);
    crate::cpu::alu::lemma_xor_undo(s.registers.a, s.registers.b);
    crate::cpu::alu::lemma_xor_undo(s.registers.a, s.registers.c);
    crate::cpu::alu::lemma_xor_undo(s.registers.a, s.registers.d);
    crate::cpu::alu::lemma_xor_undo(s.registers.a, s.registers.e);
    crate::cpu::alu::lemma_xor_undo(s.registers.a, s.registers.h);
    crate::cpu::alu::lemma_xor_undo(s.registers.a, s.registers.l);
    crate::cpu::alu::lemma_xor_undo(s.registers.a, s.memory[(256 * s.registers.h + s.registers.l)]);
    crate::cpu::alu::lemma_xor_undo(s.registers.a, s.memory[((s.pc + 1) % 0x10000) as int]);
}

/// `CP x` sets the flags of the subtraction `A - x` (zero when the
/// difference is zero, subtract, half-carry on a borrow out of bit 4, carry
/// on a borrow out of bit 8) and changes nothing else.
pub proof fn lemma_compare(s: CpuState)
    ensures
        ({
            let (t, next, cycles) = crate::cpu::spec_execute(s, Instruction::CP(ArithmeticSource::A));
            {
                &&& t.registers.f.zero == (s.registers.a - s.registers.a == 0)
                &&& t.registers.f.subtract
                &&& t.registers.f.half_carry == (s.registers.a % 16 - s.registers.a % 16 < 0)
                &&& t.registers.f.carry == (s.registers.a - s.registers.a < 0)
                &&& t.registers.a == s.registers.a
                &&& t.registers.b == s.registers.b
                &&& t.registers.c == s.registers.c
                &&& t.registers.d == s.registers.d
                &&& t.registers.e == s.registers.e
                &&& t.registers.h == s.registers.h
                &&& t.registers.l == s.registers.l
                &&& t.memory == s.memory
                &&& t.sp == s.sp
                &&& t.pc == s.pc
                &&& next as int == (s.pc + 1) % 0x10000
                &&& cycles == 4
            }
        }),
        ({
            let (t, next, cycles) = crate::cpu::spec_execute(s, Instruction::CP(ArithmeticSource::B));
            {
                &&& t.registers.f.zero == (s.registers.a - s.registers.b == 0)
                &&& t.registers.f.subtract
                &&& t.registers.f.half_carry == (s.registers.a % 16 - s.registers.b % 16 < 0)
                &&& t.registers.f.carry == (s.registers.a - s.registers.b < 0)
                &&& t.registers.a == s.registers.a
                &&& t.registers.b == s.registers.b
                &&& t.registers.c == s.registers.c
                &&& t.registers.d == s.registers.d
                &&& t.registers.e == s.registers.e
                &&& t.registers.h == s.registers.h
                &&& t.registers.l == s.registers.l
                &&& t.memory == s.memory
                &&& t.sp == s.sp
                &&& t.pc == s.pc
                &&& next as int == (s.pc + 1) % 0x10000
                &&& cycles == 4
            }
        }),
        ({
            let (t, next, cycles) = crate::cpu::spec_execute(s, Instruction::CP(ArithmeticSource::C));
            {
                &&& t.registers.f.zero == (s.registers.a - s.registers.c == 0)
                &&& t.registers.f.subtract
                &&& t.registers.f.half_carry == (s.registers.a % 16 - s.registers.c % 16 < 0)
                &&& t.registers.f.carry == (s.registers.a - s.registers.c < 0)
                &&& t.registers.a == s.registers.a
                &&& t.registers.b == s.registers.b
                &&& t.registers.c == s.registers.c
                &&& t.registers.d == s.registers.d
                &&& t.registers.e == s.registers.e
                &&& t.registers.h == s.registers.h
                &&& t.registers.l == s.registers.l
                &&& t.memory == s.memory
                &&& t.sp == s.sp
                &&& t.pc == s.pc
                &&& next as int == (s.pc + 1) % 0x10000
                &&& cycles == 4
            }
        }),
        ({
            let (t, next, cycles) = crate::cpu::spec_execute(s, Instruction::CP(ArithmeticSource::D));
            {
                &&& t.registers.f.zero == (s.registers.a - s.registers.d == 0)
                &&& t.registers.f.subtract
                &&& t.registers.f.half_carry == (s.registers.a % 16 - s.registers.d % 16 < 0)
                &&& t.registers.f.carry == (s.registers.a - s.registers.d < 0)
                &&& t.registers.a == s.registers.a
                &&& t.registers.b == s.registers.b
                &&& t.registers.c == s.registers.c
                &&& t.registers.d == s.registers.d
                &&& t.registers.e == s.registers.e
                &&& t.registers.h == s.registers.h
                &&& t.registers.l == s.registers.l
                &&& t.memory == s.memory
                &&& t.sp == s.sp
                &&& t.pc == s.pc
                &&& next as int == (s.pc + 1) % 0x10000
                &&& cycles == 4
            }
        }),
        ({
            let (t, next, cycles) = crate::cpu::spec_execute(s, Instruction::CP(ArithmeticSource::E));
            {
                &&& t.registers.f.zero == (s.registers.a - s.registers.e == 0)
                &&& t.registers.f.subtract
                &&& t.registers.f.half_carry == (s.registers.a % 16 - s.registers.e % 16 < 0)
                &&& t.registers.f.carry == (s.registers.a - s.registers.e < 0)
                &&& t.registers.a == s.registers.a
                &&& t.registers.b == s.registers.b
                &&& t.registers.c == s.registers.c
                &&& t.registers.d == s.registers.d
                &&& t.registers.e == s.registers.e
                &&& t.registers.h == s.registers.h
                &&& t.registers.l == s.registers.l
                &&& t.memory == s.memory
                &&& t.sp == s.sp
                &&& t.pc == s.pc
                &&& next as int == (s.pc + 1) % 0x10000
                &&& cycles == 4
            }
        }),
        ({
            let (t, next, cycles) = crate::cpu::spec_execute(s, Instruction::CP(ArithmeticSource::H));
            {
                &&& t.registers.f.zero == (s.registers.a - s.registers.h == 0)
                &&& t.registers.f.subtract
                &&& t.registers.f.half_carry == (s.registers.a % 16 - s.registers.h % 16 < 0)
                &&& t.registers.f.carry == (s.registers.a - s.registers.h < 0)
                &&& t.registers.a == s.registers.a
                &&& t.registers.b == s.registers.b
                &&& t.registers.c == s.registers.c
                &&& t.registers.d == s.registers.d
                &&& t.registers.e == s.registers.e
                &&& t.registers.h == s.registers.h
                &&& t.registers.l == s.registers.l
                &&& t.memory == s.memory
                &&& t.sp == s.sp
                &&& t.pc == s.pc
                &&& next as int == (s.pc + 1) % 0x10000
                &&& cycles == 4
            }
        }),
        ({
            let (t, next, cycles) = crate::cpu::spec_execute(s, Instruction::CP(ArithmeticSource::L));
            {
                &&& t.registers.f.zero == (s.registers.a - s.registers.l == 0)
                &&& t.registers.f.subtract
                &&& t.registers.f.half_carry == (s.registers.a % 16 - s.registers.l % 16 < 0)
                &&& t.registers.f.carry == (s.registers.a - s.registers.l < 0)
                &&& t.registers.a == s.registers.a
                &&& t.registers.b == s.registers.b
                &&& t.registers.c == s.registers.c
                &&& t.registers.d == s.registers.d
                &&& t.registers.e == s.registers.e
                &&& t.registers.h == s.registers.h
                &&& t.registers.l == s.registers.l
                &&& t.memory == s.memory
                &&& t.sp == s.sp
                &&& t.pc == s.pc
                &&& next as int == (s.pc + 1) % 0x10000
                &&& cycles == 4
            }
        }),
        ({
            let (t, next, cycles) = crate::cpu::spec_execute(s, Instruction::CP(ArithmeticSource::HLI));
            {
                &&& t.registers.f.zero == (s.registers.a - s.memory[(256 * s.registers.h + s.registers.l)] == 0)
                &&& t.registers.f.subtract
                &&& t.registers.f.half_carry == (s.registers.a % 16 - s.memory[(256 * s.registers.h + s.registers.l)] % 16 < 0)
                &&& t.registers.f.carry == (s.registers.a - s.memory[(256 * s.registers.h + s.registers.l)] < 0)
                &&& t.registers.a == s.registers.a
                &&& t.registers.b == s.registers.b
                &&& t.registers.c == s.registers.c
                &&& t.registers.d == s.registers.d
                &&& t.registers.e == s.registers.e
                &&& t.registers.h == s.registers.h
                &&& t.registers.l == s.registers.l
                &&& t.memory == s.memory
                &&& t.sp == s.sp
                &&& t.pc == s.pc
                &&& next as int == (s.pc + 1) % 0x10000
                &&& cycles == 8
            }
        }),
        ({
            let (t, next, cycles) = crate::cpu::spec_execute(s, Instruction::CP(ArithmeticSource::D8));
            {
                &&& t.registers.f.zero == (s.registers.a - s.memory[((s.pc + 1) % 0x10000) as int] == 0)
                &&& t.registers.f.subtract
                &&& t.registers.f.half_carry == (s.registers.a % 16 - s.memory[((s.pc + 1) % 0x10000) as int] % 16 < 0)
                &&& t.registers.f.carry == (s.registers.a - s.memory[((s.pc + 1) % 0x10000) as int] < 0)
                &&& t.registers.a == s.registers.a
                &&& t.registers.b == s.registers.b
                &&& t.registers.c == s.registers.c
                &&& t.registers.d == s.registers.d
                &&& t.registers.e == s.registers.e
                &&& t.registers.h == s.registers.h
                &&& t.registers.l == s.registers.l
                &&& t.memory == s.memory
                &&& t.sp == s.sp
                &&& t.pc == s.pc
                &&& next as int == (s.pc + 2) % 0x10000
                &&& cycles == 8
            }
        }),
{
}

/// `ADD A, C` puts `A + C` modulo 256 in A, sets zero when that is zero,
/// half-carry on a carry out of bit 3, carry on a carry out of bit 7, and
/// changes nothing else.
pub proof fn lemma_add(s: CpuState)
    ensures
        ({
            let (t, next, cycles) = crate::cpu::spec_execute(s, Instruction::ADD(ArithmeticSource::C));
            {
                &&& t.registers.a as int == (s.registers.a + s.registers.c) % 256
                &&& t.registers.f.zero == ((s.registers.a + s.registers.c) % 256 == 0)
                &&& !t.registers.f.subtract
                &&& t.registers.f.half_carry == (s.registers.a % 16 + s.registers.c % 16 >= 16)
                &&& t.registers.f.carry == (s.registers.a + s.registers.c >= 256)
                &&& t.registers.b == s.registers.b
                &&& t.registers.c == s.registers.c
                &&& t.registers.d == s.registers.d
                &&& t.registers.e == s.registers.e
                &&& t.registers.h == s.registers.h
                &&& t.registers.l == s.registers.l
                &&& t.memory == s.memory
                &&& t.sp == s.sp
                &&& t.pc == s.pc
                &&& next as int == (s.pc + 1) % 0x10000
                &&& cycles == 4
            }
        }),
{
}

/// `JP cc, a16` changes no state; when the condition (NZ, Z, NC, C or
/// always) holds it continues at the little-endian word after the opcode in
/// 16 cycles, otherwise after the three-byte instruction in 12.
pub proof fn lemma_absolute_jump(s: CpuState)
    ensures
        ({
            let (t, next, cycles) = crate::cpu::spec_execute(s, Instruction::JP(JumpTest::NotZero));
            {
                &&& t == s
                &&& (!s.registers.f.zero) ==> next as int == s.memory[((s.pc + 1) % 0x10000) as int] + 256 * s.memory[((s.pc + 2) % 0x10000) as int] && cycles == 16
                &&& !(!s.registers.f.zero) ==> next as int == (s.pc + 3) % 0x10000 && cycles == 12
            }
        }),
        ({
            let (t, next, cycles) = crate::cpu::spec_execute(s, Instruction::JP(JumpTest::Zero));
            {
                &&& t == s
                &&& (s.registers.f.zero) ==> next as int == s.memory[((s.pc + 1) % 0x10000) as int] + 256 * s.memory[((s.pc + 2) % 0x10000) as int] && cycles == 16
                &&& !(s.registers.f.zero) ==> next as int == (s.pc + 3) % 0x10000 && cycles == 12
            }
        }),
        ({
            let (t, next, cycles) = crate::cpu::spec_execute(s, Instruction::JP(JumpTest::NotCarry));
            {
                &&& t == s
                &&& (!s.registers.f.carry) ==> next as int == s.memory[((s.pc + 1) % 0x10000) as int] + 256 * s.memory[((s.pc + 2) % 0x10000) as int] && cycles == 16
                &&& !(!s.registers.f.carry) ==> next as int == (s.pc + 3) % 0x10000 && cycles == 12
            }
        }),
        ({
            let (t, next, cycles) = crate::cpu::spec_execute(s, Instruction::JP(JumpTest::Carry));
            {
                &&& t == s
                &&& (s.registers.f.carry) ==> next as int == s.memory[((s.pc + 1) % 0x10000) as int] + 256 * s.memory[((s.pc + 2) % 0x10000) as int] && cycles == 16
                &&& !(s.registers.f.carry) ==> next as int == (s.pc + 3) % 0x10000 && cycles == 12
            }
        }),
        ({
            let (t, next, cycles) = crate::cpu::spec_execute(s, Instruction::JP(JumpTest::Always));
            {
                &&& t == s
                &&& (true) ==> next as int == s.memory[((s.pc + 1) % 0x10000) as int] + 256 * s.memory[((s.pc + 2) % 0x10000) as int] && cycles == 16
                &&& !(true) ==> next as int == (s.pc + 3) % 0x10000 && cycles == 12
            }
        }),
{
}

/// `JR cc, r8` changes no state; when the condition (NZ, Z, NC, C or
/// always) holds it continues at the address after the two-byte
/// instruction moved by the signed offset byte (forwards or backwards) in
/// 12 cycles, otherwise after the instruction in 8.
pub proof fn lemma_relative_jump(s: CpuState)
    ensures
        ({
            let (t, next, cycles) = crate::cpu::spec_execute(s, Instruction::JR(JumpTest::NotZero));
            {
                &&& t == s
                &&& (!s.registers.f.zero) ==> next as int == (s.pc + 2 + (if s.memory[((s.pc + 1) % 0x10000) as int] < 128 { s.memory[((s.pc + 1) % 0x10000) as int] as int } else { s.memory[((s.pc + 1) % 0x10000) as int] - 256 })) % 0x10000 && cycles == 12
                &&& !(!s.registers.f.zero) ==> next as int == (s.pc + 2) % 0x10000 && cycles == 8
            }
        }),
        ({
            let (t, next, cycles) = crate::cpu::spec_execute(s, Instruction::JR(JumpTest::Zero));
            {
                &&& t == s
                &&& (s.registers.f.zero) ==> next as int == (s.pc + 2 + (if s.memory[((s.pc + 1) % 0x10000) as int] < 128 { s.memory[((s.pc + 1) % 0x10000) as int] as int } else { s.memory[((s.pc + 1) % 0x10000) as int] - 256 })) % 0x10000 && cycles == 12
                &&& !(s.registers.f.zero) ==> next as int == (s.pc + 2) % 0x10000 && cycles == 8
            }
        }),
        ({
            let (t, next, cycles) = crate::cpu::spec_execute(s, Instruction::JR(JumpTest::NotCarry));
            {
                &&& t == s
                &&& (!s.registers.f.carry) ==> next as int == (s.pc + 2 + (if s.memory[((s.pc + 1) % 0x10000) as int] < 128 { s.memory[((s.pc + 1) % 0x10000) as int] as int } else { s.memory[((s.pc + 1) % 0x10000) as int] - 256 })) % 0x10000 && cycles == 12
                &&& !(!s.registers.f.carry) ==> next as int == (s.pc + 2) % 0x10000 && cycles == 8
            }
        }),
        ({
            let (t, next, cycles) = crate::cpu::spec_execute(s, Instruction::JR(JumpTest::Carry));
            {
                &&& t == s
                &&& (s.registers.f.carry) ==> next as int == (s.pc + 2 + (if s.memory[((s.pc + 1) % 0x10000) as int] < 128 { s.memory[((s.pc + 1) % 0x10000) as int] as int } else { s.memory[((s.pc + 1) % 0x10000) as int] - 256 })) % 0x10000 && cycles == 12
                &&& !(s.registers.f.carry) ==> next as int == (s.pc + 2) % 0x10000 && cycles == 8
            }
        }),
        ({
            let (t, next, cycles) = crate::cpu::spec_execute(s, Instruction::JR(JumpTest::Always));
            {
                &&& t == s
                &&& (true) ==> next as int == (s.pc + 2 + (if s.memory[((s.pc + 1) % 0x10000) as int] < 128 { s.memory[((s.pc + 1) % 0x10000) as int] as int } else { s.memory[((s.pc + 1) % 0x10000) as int] - 256 })) % 0x10000 && cycles == 12
                &&& !(true) ==> next as int == (s.pc + 2) % 0x10000 && cycles == 8
            }
        }),
{
}

/// A relative jump is refused only at the very end of memory or for the
/// offset -128: below address `0xFFFF` every other offset byte, negative
/// ones included, can be taken.
pub proof fn lemma_relative_jump_offsets(s: CpuState)
    requires
        s.pc != 0xFFFF,
    ensures
        crate::cpu::spec_relative_jump_defined(s) <==> s.memory[((s.pc + 1) % 0x10000) as int] != 0x80,
        forall|test: JumpTest| #![auto] crate::cpu::spec_executable(s, Instruction::JR(test)) <==> (
            s.memory[((s.pc + 1) % 0x10000) as int] != 0x80 || !crate::cpu::spec_jump_taken(test, s.registers.f)),
{
}

/// Every implemented opcode except the relative jumps can be stepped in any
/// state; a relative jump at an address below `0xFFFF` can be stepped
/// unless it is taken with the offset byte `0x80`.
pub proof fn lemma_step_defined(s: CpuState)
    requires
        s.pc != 0xFFFF,
    ensures
        crate::cpu::spec_step_defined(s) <==> (crate::cpu::spec_decode(s.memory[s.pc as int]) is Some
            && !(s.memory[s.pc as int] == 0x18 && s.memory[((s.pc + 1) % 0x10000) as int] == 0x80)
            && !(s.memory[s.pc as int] == 0x20 && !s.registers.f.zero && s.memory[((s.pc + 1) % 0x10000) as int] == 0x80)
            && !(s.memory[s.pc as int] == 0x28 && s.registers.f.zero && s.memory[((s.pc + 1) % 0x10000) as int] == 0x80)
            && !(s.memory[s.pc as int] == 0x30 && !s.registers.f.carry && s.memory[((s.pc + 1) % 0x10000) as int] == 0x80)
            && !(s.memory[s.pc as int] == 0x38 && s.registers.f.carry && s.memory[((s.pc + 1) % 0x10000) as int] == 0x80)),
{
}

/// One step executes the decoded instruction and moves the program counter
/// to the address that execution gives.
pub proof fn lemma_step_is_execute(s: CpuState)
    requires
        crate::cpu::spec_step_defined(s),
    ensures
        ({
            let (t, next, cycles) = crate::cpu::spec_execute(s, crate::cpu::spec_decode(s.memory[s.pc as int])->Some_0);
            crate::cpu::spec_step(s) == (CpuState { pc: next, ..t }, cycles)
        }),
{
}

/// `NOP` changes nothing but moves on by one byte in 4 cycles.
pub proof fn lemma_nop(s: CpuState)
    ensures
        crate::cpu::spec_execute(s, Instruction::NOP) == (s, ((s.pc + 1) % 0x10000) as u16, 4u8),
{
}

} // verus!
