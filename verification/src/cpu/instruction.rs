use vstd::prelude::*;

verus! {

/// The condition under which a jump is taken.
pub enum JumpTest {
    NotZero,
    Zero,
    NotCarry,
    Carry,
    Always,
}

/// A decoded instruction.
pub enum Instruction {
    NOP,
    LD(LoadType),
    ADD(ArithmeticSource),
    DEC(ArithmeticSource),
    CP(ArithmeticSource),
    XOR(ArithmeticSource),
    JP(JumpTest),
    JR(JumpTest),
}

/// An eight-bit register that an instruction writes.
pub enum DestinationRegister {
    A,
    B,
    C,
    D,
    E,
    H,
    L,
}

/// The operand of an arithmetic or logic instruction: a register, the byte
/// at HL, or the byte that follows the opcode.
#[derive(Debug)]
pub enum ArithmeticSource {
    A,
    B,
    C,
    D,
    E,
    H,
    L,
    HLI,
    D8,
}

/// The address that a store of register A goes to.
pub enum Indirect {
    BCIndirect,
    DEIndirect,
    HLIndirectMinus,
    HLIndirectPlus,
    WordIndirect,
    LastByteIndirect,
}

/// The three forms of load.
pub enum LoadType {
    Byte(LoadByteTarget, LoadByteSource),
    Word(LoadWordTarget),
    IndirectFromA(Indirect),
}

/// Where a byte load stores its value.
pub enum LoadByteTarget {
    A,
    B,
    C,
    D,
    E,
    H,
    L,
    HLI,
}

/// Where a byte load takes its value from.
pub enum LoadByteSource {
    A,
    B,
    C,
    D,
    E,
    H,
    L,
    D8,
    HLI,
}

/// The register pair (or stack pointer) that a word load fills.
pub enum LoadWordTarget {
    BC,
    DE,
    HL,
    SP,
}

/// The register that an operand names, if it names one.
pub open spec fn spec_destination(source: ArithmeticSource) -> Option<DestinationRegister> {
    match source {
        ArithmeticSource::A => Some(DestinationRegister::A),
        ArithmeticSource::B => Some(DestinationRegister::B),
        ArithmeticSource::C => Some(DestinationRegister::C),
        ArithmeticSource::D => Some(DestinationRegister::D),
        ArithmeticSource::E => Some(DestinationRegister::E),
        ArithmeticSource::H => Some(DestinationRegister::H),
        ArithmeticSource::L => Some(DestinationRegister::L),
        ArithmeticSource::HLI | ArithmeticSource::D8 => None,
    }
}

/// The printed name of an operand.
pub open spec fn spec_source_name(source: ArithmeticSource) -> Seq<char> {
    match source {
        ArithmeticSource::A => "A"@,
        ArithmeticSource::B => "B"@,
        ArithmeticSource::C => "C"@,
        ArithmeticSource::D => "D"@,
        ArithmeticSource::E => "E"@,
        ArithmeticSource::H => "H"@,
        ArithmeticSource::L => "L"@,
        ArithmeticSource::HLI => "HLI"@,
        ArithmeticSource::D8 => "D8"@,
    }
}

impl ArithmeticSource {
    /// The register this operand names; the memory operands name none.
    pub fn to_destination_register(&self) -> (register: DestinationRegister)
        requires
            spec_destination(*self) is Some,
        ensures
            spec_destination(*self) == Some(register),
    {
        match self {
            ArithmeticSource::A => DestinationRegister::A,
            ArithmeticSource::B => DestinationRegister::B,
            ArithmeticSource::C => DestinationRegister::C,
            ArithmeticSource::D => DestinationRegister::D,
            ArithmeticSource::E => DestinationRegister::E,
            ArithmeticSource::H => DestinationRegister::H,
            ArithmeticSource::L => DestinationRegister::L,
            ArithmeticSource::HLI | ArithmeticSource::D8 => DestinationRegister::A,
        }
    }

    /// The printed name of the operand.
    pub fn to_string(&self) -> (name: String)
        ensures
            name@ == spec_source_name(*self),
    {
        broadcast use vstd::string::to_string_from_display_ensures_for_str;

        match self {
            ArithmeticSource::A => "A".to_string(),
            ArithmeticSource::B => "B".to_string(),
            ArithmeticSource::C => "C".to_string(),
            ArithmeticSource::D => "D".to_string(),
            ArithmeticSource::E => "E".to_string(),
            ArithmeticSource::H => "H".to_string(),
            ArithmeticSource::L => "L".to_string(),
            ArithmeticSource::HLI => "HLI".to_string(),
            ArithmeticSource::D8 => "D8".to_string(),
        }
    }
}

/// Register code in bits 5-3 or 2-0 of an opcode, as a byte-load target.
pub open spec fn spec_byte_target(code: int) -> LoadByteTarget {
    if code == 0 {
        LoadByteTarget::B
    } else if code == 1 {
        LoadByteTarget::C
    } else if code == 2 {
        LoadByteTarget::D
    } else if code == 3 {
        LoadByteTarget::E
    } else if code == 4 {
        LoadByteTarget::H
    } else if code == 5 {
        LoadByteTarget::L
    } else if code == 6 {
        LoadByteTarget::HLI
    } else {
        LoadByteTarget::A
    }
}

/// Register code of an opcode, as a byte-load source.
pub open spec fn spec_byte_source(code: int) -> LoadByteSource {
    if code == 0 {
        LoadByteSource::B
    } else if code == 1 {
        LoadByteSource::C
    } else if code == 2 {
        LoadByteSource::D
    } else if code == 3 {
        LoadByteSource::E
    } else if code == 4 {
        LoadByteSource::H
    } else if code == 5 {
        LoadByteSource::L
    } else if code == 6 {
        LoadByteSource::HLI
    } else {
        LoadByteSource::A
    }
}

/// Register code of an opcode, as an arithmetic operand.
pub open spec fn spec_arithmetic_source(code: int) -> ArithmeticSource {
    if code == 0 {
        ArithmeticSource::B
    } else if code == 1 {
        ArithmeticSource::C
    } else if code == 2 {
        ArithmeticSource::D
    } else if code == 3 {
        ArithmeticSource::E
    } else if code == 4 {
        ArithmeticSource::H
    } else if code == 5 {
        ArithmeticSource::L
    } else if code == 6 {
        ArithmeticSource::HLI
    } else {
        ArithmeticSource::A
    }
}

/// Register-pair code in bits 5-4 of an opcode.
pub open spec fn spec_word_target(code: int) -> LoadWordTarget {
    if code == 0 {
        LoadWordTarget::BC
    } else if code == 1 {
        LoadWordTarget::DE
    } else if code == 2 {
        LoadWordTarget::HL
    } else {
        LoadWordTarget::SP
    }
}

/// Condition code in bits 4-3 of a conditional jump.
pub open spec fn spec_jump_test(code: int) -> JumpTest {
    if code == 0 {
        JumpTest::NotZero
    } else if code == 1 {
        JumpTest::Zero
    } else if code == 2 {
        JumpTest::NotCarry
    } else {
        JumpTest::Carry
    }
}

} // verus!
