use vstd::prelude::*;

pub mod alu;
pub mod laws;
pub mod instruction;
pub mod memory_bus;
pub mod registers;

use instruction::{
    ArithmeticSource,
    DestinationRegister,
    Indirect,
    Instruction,
    JumpTest,
    LoadByteSource,
    LoadByteTarget,
    LoadType,
    LoadWordTarget,
};
use memory_bus::MemoryBus;
use registers::{FlagsRegister, Registers};

verus! {

/// The processor: its registers, its memory, the program counter and the
/// stack pointer.
pub struct Cpu {
    pub registers: Registers,
    pub memory_bus: MemoryBus,
    pub pc: u16,
    pub sp: u16,
}

/// The state of a processor, as a mathematical value.
pub struct CpuState {
    pub registers: Registers,
    pub memory: Seq<u8>,
    pub pc: u16,
    pub sp: u16,
}

impl View for Cpu {
    type V = CpuState;

    open spec fn view(&self) -> CpuState {
        CpuState { registers: self.registers, memory: self.memory_bus@, pc: self.pc, sp: self.sp }
    }
}

/// `x + y` modulo `0x10000`.
pub open spec fn spec_wrapping_add(x: u16, y: int) -> u16 {
    ((x + y) % 0x10000) as u16
}

/// The byte read as a two's-complement signed number.
pub open spec fn spec_signed(byte: u8) -> int {
    if byte < 128 {
        byte as int
    } else {
        byte - 256
    }
}

/// Whether a jump with condition `test` is taken under `flags`.
pub open spec fn spec_jump_taken(test: JumpTest, flags: FlagsRegister) -> bool {
    match test {
        JumpTest::NotZero => !flags.zero,
        JumpTest::Zero => flags.zero,
        JumpTest::NotCarry => !flags.carry,
        JumpTest::Carry => flags.carry,
        JumpTest::Always => true,
    }
}

/// Length in bytes of an arithmetic or logic instruction with this operand.
pub open spec fn spec_operand_length(source: ArithmeticSource) -> int {
    match source {
        ArithmeticSource::D8 => 2,
        _ => 1,
    }
}

/// Cycles taken by an arithmetic or logic instruction with this operand.
pub open spec fn spec_operand_cycles(source: ArithmeticSource) -> u8 {
    match source {
        ArithmeticSource::HLI | ArithmeticSource::D8 => 8,
        _ => 4,
    }
}

impl CpuState {
    /// The byte at `address`.
    pub open spec fn read(self, address: u16) -> u8 {
        self.memory[address as int]
    }

    /// This state with `value` stored at `address`.
    pub open spec fn write(self, address: u16, value: u8) -> CpuState {
        CpuState { memory: self.memory.update(address as int, value), ..self }
    }

    /// This state with other registers.
    pub open spec fn with_registers(self, registers: Registers) -> CpuState {
        CpuState { registers, ..self }
    }

    /// This state with other flags.
    pub open spec fn with_flags(self, flags: FlagsRegister) -> CpuState {
        CpuState { registers: Registers { f: flags, ..self.registers }, ..self }
    }

    /// The program counter advanced by `n` bytes.
    pub open spec fn pc_plus(self, n: int) -> u16 {
        spec_wrapping_add(self.pc, n)
    }

    /// The byte following the opcode.
    pub open spec fn immediate_byte(self) -> u8 {
        self.read(self.pc_plus(1))
    }

    /// The little-endian word following the opcode.
    pub open spec fn immediate_word(self) -> u16 {
        registers::spec_pair(self.read(self.pc_plus(2)), self.read(self.pc_plus(1)))
    }

    /// The register HL.
    pub open spec fn hl(self) -> u16 {
        self.registers.spec_hl()
    }

    /// The value of an eight-bit register.
    pub open spec fn register(self, register: DestinationRegister) -> u8 {
        match register {
            DestinationRegister::A => self.registers.a,
            DestinationRegister::B => self.registers.b,
            DestinationRegister::C => self.registers.c,
            DestinationRegister::D => self.registers.d,
            DestinationRegister::E => self.registers.e,
            DestinationRegister::H => self.registers.h,
            DestinationRegister::L => self.registers.l,
        }
    }

    /// This state with `value` in an eight-bit register.
    pub open spec fn with_register(self, register: DestinationRegister, value: u8) -> CpuState {
        let r = self.registers;
        self.with_registers(
            match register {
                DestinationRegister::A => Registers { a: value, ..r },
                DestinationRegister::B => Registers { b: value, ..r },
                DestinationRegister::C => Registers { c: value, ..r },
                DestinationRegister::D => Registers { d: value, ..r },
                DestinationRegister::E => Registers { e: value, ..r },
                DestinationRegister::H => Registers { h: value, ..r },
                DestinationRegister::L => Registers { l: value, ..r },
            },
        )
    }

    /// The value of an arithmetic operand.
    pub open spec fn operand(self, source: ArithmeticSource) -> u8 {
        match source {
            ArithmeticSource::A => self.registers.a,
            ArithmeticSource::B => self.registers.b,
            ArithmeticSource::C => self.registers.c,
            ArithmeticSource::D => self.registers.d,
            ArithmeticSource::E => self.registers.e,
            ArithmeticSource::H => self.registers.h,
            ArithmeticSource::L => self.registers.l,
            ArithmeticSource::HLI => self.read(self.hl()),
            ArithmeticSource::D8 => self.immediate_byte(),
        }
    }

    /// The value a byte load reads.
    pub open spec fn byte_source(self, source: LoadByteSource) -> u8 {
        match source {
            LoadByteSource::A => self.registers.a,
            LoadByteSource::B => self.registers.b,
            LoadByteSource::C => self.registers.c,
            LoadByteSource::D => self.registers.d,
            LoadByteSource::E => self.registers.e,
            LoadByteSource::H => self.registers.h,
            LoadByteSource::L => self.registers.l,
            LoadByteSource::D8 => self.immediate_byte(),
            LoadByteSource::HLI => self.read(self.hl()),
        }
    }

    /// This state after a byte load stores `value`.
    pub open spec fn store_byte(self, target: LoadByteTarget, value: u8) -> CpuState {
        match target {
            LoadByteTarget::A => self.with_register(DestinationRegister::A, value),
            LoadByteTarget::B => self.with_register(DestinationRegister::B, value),
            LoadByteTarget::C => self.with_register(DestinationRegister::C, value),
            LoadByteTarget::D => self.with_register(DestinationRegister::D, value),
            LoadByteTarget::E => self.with_register(DestinationRegister::E, value),
            LoadByteTarget::H => self.with_register(DestinationRegister::H, value),
            LoadByteTarget::L => self.with_register(DestinationRegister::L, value),
            LoadByteTarget::HLI => self.write(self.hl(), value),
        }
    }

    /// Target of a taken relative jump: the address after the two-byte
    /// instruction plus the signed offset that follows the opcode.
    pub open spec fn relative_target(self) -> u16 {
        spec_wrapping_add(self.pc, 2 + spec_signed(self.immediate_byte()))
    }
}

/// `LD target, source` for bytes: new state, next program counter, cycles.
pub open spec fn spec_load_byte(s: CpuState, target: LoadByteTarget, source: LoadByteSource) -> (
    CpuState,
    u16,
    u8,
) {
    let t = s.store_byte(target, s.byte_source(source));
    match source {
        LoadByteSource::D8 => (t, s.pc_plus(2), 8),
        LoadByteSource::HLI => (t, s.pc_plus(1), 8),
        _ => (t, s.pc_plus(1), 4),
    }
}

/// `LD target, d16`.
pub open spec fn spec_load_word(s: CpuState, target: LoadWordTarget) -> (CpuState, u16, u8) {
    let w = s.immediate_word();
    let t = match target {
        LoadWordTarget::BC => s.with_registers(s.registers.with_bc(w)),
        LoadWordTarget::DE => s.with_registers(s.registers.with_de(w)),
        LoadWordTarget::HL => s.with_registers(s.registers.with_hl(w)),
        LoadWordTarget::SP => CpuState { sp: w, ..s },
    };
    (t, s.pc_plus(3), 12)
}

/// Stores register A at the address that `target` names.
pub open spec fn spec_store_a(s: CpuState, target: Indirect) -> (CpuState, u16, u8) {
    let a = s.registers.a;
    let hl = s.hl();
    match target {
        Indirect::BCIndirect => (s.write(s.registers.spec_bc(), a), s.pc_plus(1), 8),
        Indirect::DEIndirect => (s.write(s.registers.spec_de(), a), s.pc_plus(1), 8),
        Indirect::HLIndirectMinus => (
            s.with_registers(s.registers.with_hl(spec_wrapping_add(hl, -1))).write(hl, a),
            s.pc_plus(1),
            8,
        ),
        Indirect::HLIndirectPlus => (
            s.with_registers(s.registers.with_hl(spec_wrapping_add(hl, 1))).write(hl, a),
            s.pc_plus(1),
            8,
        ),
        Indirect::WordIndirect => (s.write(s.immediate_word(), a), s.pc_plus(3), 16),
        Indirect::LastByteIndirect => (
            s.write((0xFF00 + s.registers.c) as u16, a),
            s.pc_plus(1),
            8,
        ),
    }
}

/// `ADD A, source`.
pub open spec fn spec_add(s: CpuState, source: ArithmeticSource) -> (CpuState, u16, u8) {
    let a = s.registers.a;
    let v = s.operand(source);
    (
        s.with_flags(alu::spec_add_flags(a, v)).with_register(
            DestinationRegister::A,
            alu::spec_add_result(a, v),
        ),
        s.pc_plus(1),
        4,
    )
}

/// `DEC target`.
pub open spec fn spec_dec(s: CpuState, target: ArithmeticSource) -> (CpuState, u16, u8) {
    let v = s.operand(target);
    let flagged = s.with_flags(alu::spec_dec_flags(s.registers.f, v));
    match instruction::spec_destination(target) {
        Some(r) => (flagged.with_register(r, alu::spec_dec_result(v)), s.pc_plus(1), 4),
        None => (flagged.write(s.hl(), alu::spec_dec_result(v)), s.pc_plus(1), 12),
    }
}

/// `XOR A, source`.
pub open spec fn spec_xor(s: CpuState, source: ArithmeticSource) -> (CpuState, u16, u8) {
    let a = s.registers.a;
    let v = s.operand(source);
    (
        s.with_flags(alu::spec_xor_flags(a, v)).with_register(DestinationRegister::A, a ^ v),
        s.pc_plus(spec_operand_length(source)),
        spec_operand_cycles(source),
    )
}

/// `CP A, source`: only the flags change.
pub open spec fn spec_compare(s: CpuState, source: ArithmeticSource) -> (CpuState, u16, u8) {
    (
        s.with_flags(alu::spec_compare_flags(s.registers.a, s.operand(source))),
        s.pc_plus(spec_operand_length(source)),
        spec_operand_cycles(source),
    )
}

/// `JP test, a16`: next program counter and cycles.
pub open spec fn spec_jump(s: CpuState, should_jump: bool) -> (u16, u8) {
    if should_jump {
        (s.immediate_word(), 16)
    } else {
        (s.pc_plus(3), 12)
    }
}

/// `JR test, r8`: next program counter and cycles.
pub open spec fn spec_jump_relative(s: CpuState, should_jump: bool) -> (u16, u8) {
    if should_jump {
        (s.relative_target(), 12)
    } else {
        (s.pc_plus(2), 8)
    }
}

/// The effect of one instruction: the new state (program counter not yet
/// moved), the next program counter and the cycles taken.
pub open spec fn spec_execute(s: CpuState, instruction: Instruction) -> (CpuState, u16, u8) {
    match instruction {
        Instruction::NOP => (s, s.pc_plus(1), 4),
        Instruction::LD(LoadType::Byte(target, source)) => spec_load_byte(s, target, source),
        Instruction::LD(LoadType::Word(target)) => spec_load_word(s, target),
        Instruction::LD(LoadType::IndirectFromA(target)) => spec_store_a(s, target),
        Instruction::ADD(source) => spec_add(s, source),
        Instruction::DEC(target) => spec_dec(s, target),
        Instruction::XOR(source) => spec_xor(s, source),
        Instruction::CP(source) => spec_compare(s, source),
        Instruction::JP(test) => {
            let (pc, cycles) = spec_jump(s, spec_jump_taken(test, s.registers.f));
            (s, pc, cycles)
        },
        Instruction::JR(test) => {
            let (pc, cycles) = spec_jump_relative(s, spec_jump_taken(test, s.registers.f));
            (s, pc, cycles)
        },
    }
}

/// Whether a relative jump can be taken from this state: the operand must
/// not lie past the end of memory and the offset must not be `-128`.
pub open spec fn spec_relative_jump_defined(s: CpuState) -> bool {
    s.pc != 0xFFFF && s.immediate_byte() != 0x80
}

/// Whether the instruction can be executed in state `s`: addition is only
/// implemented with C, a decrement needs a register or HL operand, and a
/// taken relative jump needs `spec_relative_jump_defined`.
pub open spec fn spec_executable(s: CpuState, instruction: Instruction) -> bool {
    match instruction {
        Instruction::ADD(source) => source is C,
        Instruction::DEC(target) => !(target is D8),
        Instruction::JR(test) => spec_jump_taken(test, s.registers.f) ==> spec_relative_jump_defined(
            s,
        ),
        _ => true,
    }
}

/// The instruction that `opcode` encodes, if this processor implements it.
/// With `x`, `y` and `z` the opcode's bits 7-6, 5-3 and 2-0, and the
/// register code order B, C, D, E, H, L, (HL), A:
/// - `0x00` is NOP;
/// - `x = 0, z = 1`, `y` even: load the pair with code `y / 2` (BC, DE, HL,
///   SP) from the next word;
/// - `x = 0, z = 5`: decrement register `y`;
/// - `x = 0, z = 6`: load register `y` from the next byte;
/// - `0x18` and `x = 0, z = 0, y >= 4`: relative jump, always or on NZ, Z,
///   NC, C;
/// - `0x32`: store A at HL and decrement HL;
/// - `x = 1` except `0x76`: load register `y` from register `z`;
/// - `0x81`: add C to A;
/// - `x = 2, y = 5`: exclusive-or A with register `z`;
/// - `x = 2, y = 7`: compare A with register `z`;
/// - `0xC3`: absolute jump; `0xEE`, `0xFE`: exclusive-or and compare with
///   the next byte.
pub open spec fn spec_decode(opcode: u8) -> Option<Instruction> {
    let x: int = opcode as int / 64;
    let y: int = (opcode as int / 8) % 8;
    let z: int = opcode as int % 8;
    if opcode == 0x00 {
        Some(Instruction::NOP)
    } else if x == 0 && z == 1 && y % 2 == 0 {
        Some(Instruction::LD(LoadType::Word(instruction::spec_word_target(y / 2))))
    } else if x == 0 && z == 5 {
        Some(Instruction::DEC(instruction::spec_arithmetic_source(y)))
    } else if x == 0 && z == 6 {
        Some(
            Instruction::LD(
                LoadType::Byte(instruction::spec_byte_target(y), LoadByteSource::D8),
            ),
        )
    } else if opcode == 0x18 {
        Some(Instruction::JR(JumpTest::Always))
    } else if x == 0 && z == 0 && y >= 4 {
        Some(Instruction::JR(instruction::spec_jump_test(y - 4)))
    } else if opcode == 0x32 {
        Some(Instruction::LD(LoadType::IndirectFromA(Indirect::HLIndirectMinus)))
    } else if x == 1 && opcode != 0x76 {
        Some(
            Instruction::LD(
                LoadType::Byte(
                    instruction::spec_byte_target(y),
                    instruction::spec_byte_source(z),
                ),
            ),
        )
    } else if opcode == 0x81 {
        Some(Instruction::ADD(ArithmeticSource::C))
    } else if x == 2 && y == 5 {
        Some(Instruction::XOR(instruction::spec_arithmetic_source(z)))
    } else if x == 2 && y == 7 {
        Some(Instruction::CP(instruction::spec_arithmetic_source(z)))
    } else if opcode == 0xC3 {
        Some(Instruction::JP(JumpTest::Always))
    } else if opcode == 0xEE {
        Some(Instruction::XOR(ArithmeticSource::D8))
    } else if opcode == 0xFE {
        Some(Instruction::CP(ArithmeticSource::D8))
    } else {
        None
    }
}

/// Whether the instruction at the program counter is implemented and can be
/// executed in state `s`.
pub open spec fn spec_step_defined(s: CpuState) -> bool {
    match spec_decode(s.read(s.pc)) {
        Some(instruction) => spec_executable(s, instruction),
        None => false,
    }
}

/// One fetch-decode-execute step: the new state, program counter moved,
/// and the cycles taken.
pub open spec fn spec_step(s: CpuState) -> (CpuState, u8) {
    let (t, pc, cycles) = spec_execute(s, spec_decode(s.read(s.pc))->Some_0);
    (CpuState { pc, ..t }, cycles)
}

/// Whether executing `instruction` may write memory: only byte loads into
/// the byte at HL, stores of A, and the decrement of the byte at HL do.
pub open spec fn spec_writes_memory(instruction: Instruction) -> bool {
    match instruction {
        Instruction::LD(LoadType::Byte(LoadByteTarget::HLI, _)) => true,
        Instruction::LD(LoadType::IndirectFromA(_)) => true,
        Instruction::DEC(ArithmeticSource::HLI) => true,
        _ => false,
    }
}

/// Every instruction takes 4, 8, 12 or 16 cycles.
pub proof fn lemma_execute_cycles(s: CpuState, instruction: Instruction)
    ensures
        spec_execute(s, instruction).2 % 4 == 0,
        4 <= spec_execute(s, instruction).2 <= 16,
{
}

/// Executing an instruction never moves the program counter by itself, and
/// keeps the size of memory.
pub proof fn lemma_execute_keeps_pc_and_memory_size(s: CpuState, instruction: Instruction)
    requires
        s.memory.len() == memory_bus::MEMORY_SIZE,
    ensures
        spec_execute(s, instruction).0.pc == s.pc,
        spec_execute(s, instruction).0.memory.len() == s.memory.len(),
{
}

/// Only the stores and the decrement of the byte at HL change memory.
pub proof fn lemma_memory_untouched(s: CpuState, instruction: Instruction)
    requires
        spec_executable(s, instruction),
        !spec_writes_memory(instruction),
    ensures
        spec_execute(s, instruction).0.memory == s.memory,
{
}

/// Only `LD SP, d16` changes the stack pointer.
pub proof fn lemma_stack_pointer_untouched(s: CpuState, instruction: Instruction)
    requires
        !(instruction matches Instruction::LD(LoadType::Word(LoadWordTarget::SP))),
    ensures
        spec_execute(s, instruction).0.sp == s.sp,
{
}

/// The decoder never yields an instruction that cannot run: a decoded
/// instruction can be executed in every state, except a taken relative
/// jump whose operand lies past the end of memory or whose offset is -128.
pub proof fn lemma_decoded_instructions_execute(s: CpuState, opcode: u8)
    requires
        spec_decode(opcode) is Some,
    ensures
        ({
            let instruction = spec_decode(opcode)->Some_0;
            spec_executable(s, instruction) <==> !(instruction matches Instruction::JR(test)
                && spec_jump_taken(test, s.registers.f) && !spec_relative_jump_defined(s))
        }),
{
}

/// A taken relative jump lands at the address after the instruction moved
/// by the signed offset, and a jump with offset zero is the same as not
/// jumping.
pub proof fn lemma_relative_jump_target(s: CpuState)
    ensures
        s.relative_target() as int == (s.pc + 2 + spec_signed(s.immediate_byte())) % 0x10000,
        s.immediate_byte() == 0 ==> s.relative_target() == spec_jump_relative(s, false).0,
{
}

/// Runs instructions from state `s`, with `total` cycles already spent,
/// until at least `target` cycles have been spent or the next instruction
/// cannot be executed. Gives the final state, the cycles spent, and whether
/// the target was reached.
pub open spec fn spec_run(s: CpuState, total: nat, target: nat) -> (CpuState, nat, bool)
    decreases
            (if total < target {
                target - total
            } else {
                0
            }),
{
    if total >= target {
        (s, total, true)
    } else if !spec_step_defined(s) {
        (s, total, false)
    } else {
        let (t, cycles) = spec_step(s);
        proof {
            lemma_execute_cycles(s, spec_decode(s.read(s.pc))->Some_0);
        }
        spec_run(t, total + cycles as nat, target)
    }
}

/// Running stops either with the target reached, having overshot it by less
/// than one instruction (at most 16 cycles), or short of the target at an
/// instruction that cannot be executed; the cycles spent never decrease.
pub proof fn lemma_run_outcome(s: CpuState, total: nat, target: nat)
    requires
        total < target + 16,
    ensures
        ({
            let (t, spent, reached) = spec_run(s, total, target);
            &&& spent >= total
            &&& reached ==> target <= spent < target + 16
            &&& !reached ==> spent < target && !spec_step_defined(t)
        }),
    decreases
            (if total < target {
                target - total
            } else {
                0
            }),
{
    if total < target && spec_step_defined(s) {
        let (t, cycles) = spec_step(s);
        lemma_execute_cycles(s, spec_decode(s.read(s.pc))->Some_0);
        lemma_run_outcome(t, total + cycles as nat, target);
    }
}

/// The state right after power-on with `rom` loaded.
pub open spec fn spec_power_on(rom: Seq<u8>) -> CpuState {
    CpuState {
        registers: registers::spec_power_on_registers(),
        memory: memory_bus::spec_loaded_memory(rom),
        pc: 0x0100,
        sp: 0xFFFE,
    }
}

/// The operation `manipulate_8bit_register` applies to a register.
pub enum RegisterWork {
    Decrement,
    ExclusiveOr,
}

/// The value written and the flags set by `work` on `value`.
pub open spec fn spec_register_work(s: CpuState, work: RegisterWork, value: u8) -> (
    u8,
    FlagsRegister,
) {
    match work {
        RegisterWork::Decrement => (
            alu::spec_dec_result(value),
            alu::spec_dec_flags(s.registers.f, value),
        ),
        RegisterWork::ExclusiveOr => (
            s.registers.a ^ value,
            alu::spec_xor_flags(s.registers.a, value),
        ),
    }
}

impl Cpu {
    /// A processor at power-on with `game_rom` loaded at address zero:
    /// program counter `0x0100`, stack pointer `0xFFFE`.
    pub fn new(game_rom: Vec<u8>) -> (cpu: Self)
        requires
            game_rom.len() <= memory_bus::MEMORY_SIZE,
        ensures
            cpu@ == spec_power_on(game_rom@),
    {
        Cpu {
            registers: Registers::new(),
            memory_bus: MemoryBus::new(game_rom),
            pc: 0x0100,
            sp: 0xFFFE,
        }
    }

    /// The instruction that `opcode` encodes, or `None` when it is not
    /// implemented.
    pub fn try_decode(opcode: u8) -> (decoded: Option<Instruction>)
        ensures
            decoded == spec_decode(opcode),
    {
        match opcode {
            0x00 => Some(Instruction::NOP),
            0x01 => Some(Instruction::LD(LoadType::Word(LoadWordTarget::BC))),
            0x05 => Some(Instruction::DEC(ArithmeticSource::B)),
            0x06 => Some(Instruction::LD(LoadType::Byte(LoadByteTarget::B, LoadByteSource::D8))),
            0x0d => Some(Instruction::DEC(ArithmeticSource::C)),
            0x0e => Some(Instruction::LD(LoadType::Byte(LoadByteTarget::C, LoadByteSource::D8))),
            0x11 => Some(Instruction::LD(LoadType::Word(LoadWordTarget::DE))),
            0x15 => Some(Instruction::DEC(ArithmeticSource::D)),
            0x16 => Some(Instruction::LD(LoadType::Byte(LoadByteTarget::D, LoadByteSource::D8))),
            0x18 => Some(Instruction::JR(JumpTest::Always)),
            0x1d => Some(Instruction::DEC(ArithmeticSource::E)),
            0x1e => Some(Instruction::LD(LoadType::Byte(LoadByteTarget::E, LoadByteSource::D8))),
            0x20 => Some(Instruction::JR(JumpTest::NotZero)),
            0x21 => Some(Instruction::LD(LoadType::Word(LoadWordTarget::HL))),
            0x25 => Some(Instruction::DEC(ArithmeticSource::H)),
            0x26 => Some(Instruction::LD(LoadType::Byte(LoadByteTarget::H, LoadByteSource::D8))),
            0x28 => Some(Instruction::JR(JumpTest::Zero)),
            0x2d => Some(Instruction::DEC(ArithmeticSource::L)),
            0x2e => Some(Instruction::LD(LoadType::Byte(LoadByteTarget::L, LoadByteSource::D8))),
            0x31 => Some(Instruction::LD(LoadType::Word(LoadWordTarget::SP))),
            0x30 => Some(Instruction::JR(JumpTest::NotCarry)),
            0x32 => Some(Instruction::LD(LoadType::IndirectFromA(Indirect::HLIndirectMinus))),
            0x35 => Some(Instruction::DEC(ArithmeticSource::HLI)),
            0x36 => Some(Instruction::LD(LoadType::Byte(LoadByteTarget::HLI, LoadByteSource::D8))),
            0x38 => Some(Instruction::JR(JumpTest::Carry)),
            0x3d => Some(Instruction::DEC(ArithmeticSource::A)),
            0x3e => Some(Instruction::LD(LoadType::Byte(LoadByteTarget::A, LoadByteSource::D8))),
            0x40 => Some(Instruction::LD(LoadType::Byte(LoadByteTarget::B, LoadByteSource::B))),
            0x41 => Some(Instruction::LD(LoadType::Byte(LoadByteTarget::B, LoadByteSource::C))),
            0x42 => Some(Instruction::LD(LoadType::Byte(LoadByteTarget::B, LoadByteSource::D))),
            0x43 => Some(Instruction::LD(LoadType::Byte(LoadByteTarget::B, LoadByteSource::E))),
            0x44 => Some(Instruction::LD(LoadType::Byte(LoadByteTarget::B, LoadByteSource::H))),
            0x45 => Some(Instruction::LD(LoadType::Byte(LoadByteTarget::B, LoadByteSource::L))),
            0x46 => Some(Instruction::LD(LoadType::Byte(LoadByteTarget::B, LoadByteSource::HLI))),
            0x47 => Some(Instruction::LD(LoadType::Byte(LoadByteTarget::B, LoadByteSource::A))),
            0x48 => Some(Instruction::LD(LoadType::Byte(LoadByteTarget::C, LoadByteSource::B))),
            0x49 => Some(Instruction::LD(LoadType::Byte(LoadByteTarget::C, LoadByteSource::C))),
            0x4a => Some(Instruction::LD(LoadType::Byte(LoadByteTarget::C, LoadByteSource::D))),
            0x4b => Some(Instruction::LD(LoadType::Byte(LoadByteTarget::C, LoadByteSource::E))),
            0x4c => Some(Instruction::LD(LoadType::Byte(LoadByteTarget::C, LoadByteSource::H))),
            0x4d => Some(Instruction::LD(LoadType::Byte(LoadByteTarget::C, LoadByteSource::L))),
            0x4e => Some(Instruction::LD(LoadType::Byte(LoadByteTarget::C, LoadByteSource::HLI))),
            0x4f => Some(Instruction::LD(LoadType::Byte(LoadByteTarget::C, LoadByteSource::A))),
            0x50 => Some(Instruction::LD(LoadType::Byte(LoadByteTarget::D, LoadByteSource::B))),
            0x51 => Some(Instruction::LD(LoadType::Byte(LoadByteTarget::D, LoadByteSource::C))),
            0x52 => Some(Instruction::LD(LoadType::Byte(LoadByteTarget::D, LoadByteSource::D))),
            0x53 => Some(Instruction::LD(LoadType::Byte(LoadByteTarget::D, LoadByteSource::E))),
            0x54 => Some(Instruction::LD(LoadType::Byte(LoadByteTarget::D, LoadByteSource::H))),
            0x55 => Some(Instruction::LD(LoadType::Byte(LoadByteTarget::D, LoadByteSource::L))),
            0x56 => Some(Instruction::LD(LoadType::Byte(LoadByteTarget::D, LoadByteSource::HLI))),
            0x57 => Some(Instruction::LD(LoadType::Byte(LoadByteTarget::D, LoadByteSource::A))),
            0x58 => Some(Instruction::LD(LoadType::Byte(LoadByteTarget::E, LoadByteSource::B))),
            0x59 => Some(Instruction::LD(LoadType::Byte(LoadByteTarget::E, LoadByteSource::C))),
            0x5a => Some(Instruction::LD(LoadType::Byte(LoadByteTarget::E, LoadByteSource::D))),
            0x5b => Some(Instruction::LD(LoadType::Byte(LoadByteTarget::E, LoadByteSource::E))),
            0x5c => Some(Instruction::LD(LoadType::Byte(LoadByteTarget::E, LoadByteSource::H))),
            0x5d => Some(Instruction::LD(LoadType::Byte(LoadByteTarget::E, LoadByteSource::L))),
            0x5e => Some(Instruction::LD(LoadType::Byte(LoadByteTarget::E, LoadByteSource::HLI))),
            0x5f => Some(Instruction::LD(LoadType::Byte(LoadByteTarget::E, LoadByteSource::A))),
            0x60 => Some(Instruction::LD(LoadType::Byte(LoadByteTarget::H, LoadByteSource::B))),
            0x61 => Some(Instruction::LD(LoadType::Byte(LoadByteTarget::H, LoadByteSource::C))),
            0x62 => Some(Instruction::LD(LoadType::Byte(LoadByteTarget::H, LoadByteSource::D))),
            0x63 => Some(Instruction::LD(LoadType::Byte(LoadByteTarget::H, LoadByteSource::E))),
            0x64 => Some(Instruction::LD(LoadType::Byte(LoadByteTarget::H, LoadByteSource::H))),
            0x65 => Some(Instruction::LD(LoadType::Byte(LoadByteTarget::H, LoadByteSource::L))),
            0x66 => Some(Instruction::LD(LoadType::Byte(LoadByteTarget::H, LoadByteSource::HLI))),
            0x67 => Some(Instruction::LD(LoadType::Byte(LoadByteTarget::H, LoadByteSource::A))),
            0x68 => Some(Instruction::LD(LoadType::Byte(LoadByteTarget::L, LoadByteSource::B))),
            0x69 => Some(Instruction::LD(LoadType::Byte(LoadByteTarget::L, LoadByteSource::C))),
            0x6a => Some(Instruction::LD(LoadType::Byte(LoadByteTarget::L, LoadByteSource::D))),
            0x6b => Some(Instruction::LD(LoadType::Byte(LoadByteTarget::L, LoadByteSource::E))),
            0x6c => Some(Instruction::LD(LoadType::Byte(LoadByteTarget::L, LoadByteSource::H))),
            0x6d => Some(Instruction::LD(LoadType::Byte(LoadByteTarget::L, LoadByteSource::L))),
            0x6e => Some(Instruction::LD(LoadType::Byte(LoadByteTarget::L, LoadByteSource::HLI))),
            0x6f => Some(Instruction::LD(LoadType::Byte(LoadByteTarget::L, LoadByteSource::A))),
            0x70 => Some(Instruction::LD(LoadType::Byte(LoadByteTarget::HLI, LoadByteSource::B))),
            0x71 => Some(Instruction::LD(LoadType::Byte(LoadByteTarget::HLI, LoadByteSource::C))),
            0x72 => Some(Instruction::LD(LoadType::Byte(LoadByteTarget::HLI, LoadByteSource::D))),
            0x73 => Some(Instruction::LD(LoadType::Byte(LoadByteTarget::HLI, LoadByteSource::E))),
            0x74 => Some(Instruction::LD(LoadType::Byte(LoadByteTarget::HLI, LoadByteSource::H))),
            0x75 => Some(Instruction::LD(LoadType::Byte(LoadByteTarget::HLI, LoadByteSource::L))),
            0x77 => Some(Instruction::LD(LoadType::Byte(LoadByteTarget::HLI, LoadByteSource::A))),
            0x78 => Some(Instruction::LD(LoadType::Byte(LoadByteTarget::A, LoadByteSource::B))),
            0x79 => Some(Instruction::LD(LoadType::Byte(LoadByteTarget::A, LoadByteSource::C))),
            0x7a => Some(Instruction::LD(LoadType::Byte(LoadByteTarget::A, LoadByteSource::D))),
            0x7b => Some(Instruction::LD(LoadType::Byte(LoadByteTarget::A, LoadByteSource::E))),
            0x7c => Some(Instruction::LD(LoadType::Byte(LoadByteTarget::A, LoadByteSource::H))),
            0x7d => Some(Instruction::LD(LoadType::Byte(LoadByteTarget::A, LoadByteSource::L))),
            0x7e => Some(Instruction::LD(LoadType::Byte(LoadByteTarget::A, LoadByteSource::HLI))),
            0x7f => Some(Instruction::LD(LoadType::Byte(LoadByteTarget::A, LoadByteSource::A))),
            0x81 => Some(Instruction::ADD(ArithmeticSource::C)),
            0xA8 => Some(Instruction::XOR(ArithmeticSource::B)),
            0xA9 => Some(Instruction::XOR(ArithmeticSource::C)),
            0xAA => Some(Instruction::XOR(ArithmeticSource::D)),
            0xAB => Some(Instruction::XOR(ArithmeticSource::E)),
            0xAC => Some(Instruction::XOR(ArithmeticSource::H)),
            0xAD => Some(Instruction::XOR(ArithmeticSource::L)),
            0xAE => Some(Instruction::XOR(ArithmeticSource::HLI)),
            0xAF => Some(Instruction::XOR(ArithmeticSource::A)),
            0xC3 => Some(Instruction::JP(JumpTest::Always)),
            0xB8 => Some(Instruction::CP(ArithmeticSource::B)),
            0xB9 => Some(Instruction::CP(ArithmeticSource::C)),
            0xBA => Some(Instruction::CP(ArithmeticSource::D)),
            0xBB => Some(Instruction::CP(ArithmeticSource::E)),
            0xBC => Some(Instruction::CP(ArithmeticSource::H)),
            0xBD => Some(Instruction::CP(ArithmeticSource::L)),
            0xBE => Some(Instruction::CP(ArithmeticSource::HLI)),
            0xBF => Some(Instruction::CP(ArithmeticSource::A)),
            0xEE => Some(Instruction::XOR(ArithmeticSource::D8)),
            0xFE => Some(Instruction::CP(ArithmeticSource::D8)),
            _ => None,
        }
    }

    /// The instruction that an implemented `opcode` encodes.
    pub fn decode(&self, opcode: u8) -> (instruction: Instruction)
        requires
            spec_decode(opcode) is Some,
        ensures
            spec_decode(opcode) == Some(instruction),
    {
        match Self::try_decode(opcode) {
            Some(instruction) => instruction,
            None => Instruction::NOP,
        }
    }

    /// Whether `instruction` can be executed in the current state.
    pub fn is_executable(&self, instruction: &Instruction) -> (executable: bool)
        ensures
            executable == spec_executable(self@, *instruction),
    {
        match instruction {
            Instruction::ADD(source) => matches!(source, ArithmeticSource::C),
            Instruction::DEC(target) => !matches!(target, ArithmeticSource::D8),
            Instruction::JR(test) => {
                if self.jump_taken(test) {
                    self.pc != 0xFFFF && self.memory_bus.read_byte(self.pc + 1) != 0x80
                } else {
                    true
                }
            },
            _ => true,
        }
    }

    /// Whether the jump condition holds under the current flags.
    pub fn jump_taken(&self, test: &JumpTest) -> (taken: bool)
        ensures
            taken == spec_jump_taken(*test, self.registers.f),
    {
        match test {
            JumpTest::NotZero => !self.registers.f.zero,
            JumpTest::NotCarry => !self.registers.f.carry,
            JumpTest::Zero => self.registers.f.zero,
            JumpTest::Carry => self.registers.f.carry,
            JumpTest::Always => true,
        }
    }

    /// `LD target, source` for bytes; returns the next program counter and
    /// the cycles taken.
    pub fn execute_load_byte(&mut self, target: LoadByteTarget, source: LoadByteSource) -> (next: (
        u16,
        u8,
    ))
        ensures
            (final(self)@, next.0, next.1) == spec_load_byte(old(self)@, target, source),
    {
        let source_value = match source {
            LoadByteSource::A => self.registers.a,
            LoadByteSource::B => self.registers.b,
            LoadByteSource::C => self.registers.c,
            LoadByteSource::D => self.registers.d,
            LoadByteSource::E => self.registers.e,
            LoadByteSource::H => self.registers.h,
            LoadByteSource::L => self.registers.l,
            LoadByteSource::D8 => self.memory_bus.read_byte(self.pc.wrapping_add(1)),
            LoadByteSource::HLI => self.memory_bus.read_byte(self.registers.get_hl()),
        };
        match target {
            LoadByteTarget::A => self.registers.a = source_value,
            LoadByteTarget::B => self.registers.b = source_value,
            LoadByteTarget::C => self.registers.c = source_value,
            LoadByteTarget::D => self.registers.d = source_value,
            LoadByteTarget::E => self.registers.e = source_value,
            LoadByteTarget::H => self.registers.h = source_value,
            LoadByteTarget::L => self.registers.l = source_value,
            LoadByteTarget::HLI => {
                let hl = self.registers.get_hl();
                self.memory_bus.write_byte(hl, source_value)
            },
        };
        match source {
            LoadByteSource::D8 => (self.pc.wrapping_add(2), 8),
            LoadByteSource::HLI => (self.pc.wrapping_add(1), 8),
            _ => (self.pc.wrapping_add(1), 4),
        }
    }

    /// `LD target, d16`.
    pub fn execute_load_word(&mut self, target: LoadWordTarget) -> (next: (u16, u8))
        ensures
            (final(self)@, next.0, next.1) == spec_load_word(old(self)@, target),
    {
        let word = self.read_next_word();
        match target {
            LoadWordTarget::BC => self.registers.set_bc(word),
            LoadWordTarget::DE => self.registers.set_de(word),
            LoadWordTarget::HL => self.registers.set_hl(word),
            LoadWordTarget::SP => self.sp = word,
        };
        (self.pc.wrapping_add(3), 12)
    }

    /// Stores register A at the address that `target` names.
    pub fn execute_store_a(&mut self, target: Indirect) -> (next: (u16, u8))
        ensures
            (final(self)@, next.0, next.1) == spec_store_a(old(self)@, target),
    {
        let a = self.registers.a;
        match target {
            Indirect::BCIndirect => {
                let bc = self.registers.get_bc();
                self.memory_bus.write_byte(bc, a)
            },
            Indirect::DEIndirect => {
                let de = self.registers.get_de();
                self.memory_bus.write_byte(de, a)
            },
            Indirect::HLIndirectMinus => {
                let hl = self.registers.get_hl();
                self.registers.set_hl(hl.wrapping_sub(1));
                self.memory_bus.write_byte(hl, a);
            },
            Indirect::HLIndirectPlus => {
                let hl = self.registers.get_hl();
                self.registers.set_hl(hl.wrapping_add(1));
                self.memory_bus.write_byte(hl, a);
            },
            Indirect::WordIndirect => {
                let word = self.read_next_word();
                self.memory_bus.write_byte(word, a);
            },
            Indirect::LastByteIndirect => {
                let c = self.registers.c as u16;
                self.memory_bus.write_byte(0xFF00 + c, a);
            },
        };
        match target {
            Indirect::WordIndirect => (self.pc.wrapping_add(3), 16),
            _ => (self.pc.wrapping_add(1), 8),
        }
    }

    /// Executes `instruction`; returns the next program counter and the
    /// cycles taken. The program counter itself is left alone.
    pub fn execute(&mut self, instruction: Instruction) -> (next: (u16, u8))
        requires
            spec_executable(old(self)@, instruction),
        ensures
            (final(self)@, next.0, next.1) == spec_execute(old(self)@, instruction),
    {
        match instruction {
            Instruction::NOP => (self.pc.wrapping_add(1), 4),
            Instruction::LD(load_type) => match load_type {
                LoadType::Byte(target, source) => self.execute_load_byte(target, source),
                LoadType::Word(target) => self.execute_load_word(target),
                LoadType::IndirectFromA(target) => self.execute_store_a(target),
            },
            Instruction::ADD(source) => {
                let value = self.registers.c;
                let new_value = self.add(value);
                self.registers.a = new_value;
                (self.pc.wrapping_add(1), 4)
            },
            Instruction::DEC(target) => match target {
                ArithmeticSource::HLI => {
                    let value = self.memory_bus.read_byte(self.registers.get_hl());
                    let new_val = self.dec(value);
                    let hl = self.registers.get_hl();
                    self.memory_bus.write_byte(hl, new_val);
                    (self.pc.wrapping_add(1), 12)
                },
                _ => {
                    let destination = target.to_destination_register();
                    let value = self.get_value_from_source(target);
                    self.manipulate_8bit_register(destination, value, RegisterWork::Decrement);
                    (self.pc.wrapping_add(1), 4)
                },
            },
            Instruction::XOR(source) => {
                let (next_counter, cycles) = match source {
                    ArithmeticSource::HLI => (self.pc.wrapping_add(1), 8),
                    ArithmeticSource::D8 => (self.pc.wrapping_add(2), 8),
                    _ => (self.pc.wrapping_add(1), 4),
                };
                let val = self.get_value_from_source(source);
                self.manipulate_8bit_register(
                    DestinationRegister::A,
                    val,
                    RegisterWork::ExclusiveOr,
                );
                (next_counter, cycles)
            },
            Instruction::JP(test) => {
                let jump_condition = self.jump_taken(&test);
                self.jump(jump_condition)
            },
            Instruction::JR(test) => {
                let jump_condition = self.jump_taken(&test);
                self.jump_relative(jump_condition)
            },
            Instruction::CP(source) => {
                let (next_counter, cycles) = match source {
                    ArithmeticSource::HLI => (self.pc.wrapping_add(1), 8),
                    ArithmeticSource::D8 => (self.pc.wrapping_add(2), 8),
                    _ => (self.pc.wrapping_add(1), 4),
                };
                let val = self.get_value_from_source(source);
                self.compare(val);
                (next_counter, cycles)
            },
        }
    }

    /// The little-endian word that follows the opcode.
    pub fn read_next_word(&self) -> (word: u16)
        ensures
            word == self@.immediate_word(),
    {
        let least_significant_byte = self.memory_bus.read_byte(self.pc.wrapping_add(1)) as u16;
        let most_significant_byte = self.memory_bus.read_byte(self.pc.wrapping_add(2)) as u16;
        let word = (most_significant_byte << 8) | least_significant_byte;
        assert((most_significant_byte << 8u16) | least_significant_byte == 256
            * most_significant_byte + least_significant_byte) by (bit_vector)
            requires
                most_significant_byte < 256,
                least_significant_byte < 256,
        ;
        word
    }

    /// The value of an arithmetic operand.
    pub fn get_value_from_source(&self, source: ArithmeticSource) -> (value: u8)
        ensures
            value == self@.operand(source),
    {
        match source {
            ArithmeticSource::A => self.registers.a,
            ArithmeticSource::B => self.registers.b,
            ArithmeticSource::C => self.registers.c,
            ArithmeticSource::D => self.registers.d,
            ArithmeticSource::E => self.registers.e,
            ArithmeticSource::H => self.registers.h,
            ArithmeticSource::L => self.registers.l,
            ArithmeticSource::HLI => self.memory_bus.read_byte(self.registers.get_hl()),
            ArithmeticSource::D8 => self.memory_bus.read_byte(self.pc.wrapping_add(1)),
        }
    }

    /// Compares A with `value`: sets the flags as `A - value` would and
    /// changes nothing else.
    pub fn compare(&mut self, value: u8)
        ensures
            final(self)@ == old(self)@.with_flags(
                alu::spec_compare_flags(old(self).registers.a, value),
            ),
    {
        let a = self.registers.a;
        self.registers.f.zero = a == value;
        self.registers.f.subtract = true;
        // The low nibble of A borrows exactly when it is below that of the value.
        self.registers.f.half_carry = (a & 0xF) < (value & 0xF);
        self.registers.f.carry = a < value;
        assert(a & 0xFu8 == a % 16) by (bit_vector);
        assert(value & 0xFu8 == value % 16) by (bit_vector);
    }

    /// Next program counter and cycles of an absolute jump.
    pub fn jump(&self, should_jump: bool) -> (next: (u16, u8))
        ensures
            next == spec_jump(self@, should_jump),
    {
        if should_jump {
            (self.read_next_word(), 16)
        } else {
            (self.pc.wrapping_add(3), 12)
        }
    }

    /// Next program counter and cycles of a relative jump.
    pub fn jump_relative(&self, should_jump: bool) -> (next: (u16, u8))
        requires
            should_jump ==> spec_relative_jump_defined(self@),
        ensures
            next == spec_jump_relative(self@, should_jump),
    {
        let next_step = self.pc.wrapping_add(2);
        if should_jump {
            let offset = self.memory_bus.read_byte(self.pc + 1);
            let pc = if offset < 0x80 {
                next_step.wrapping_add(offset as u16)
            } else {
                next_step.wrapping_sub(0x100 - offset as u16)
            };
            (pc, 12)
        } else {
            (next_step, 8)
        }
    }

    /// `A + value`, wrapping; sets the flags of the addition and leaves A
    /// and everything else unchanged.
    pub fn add(&mut self, value: u8) -> (new_value: u8)
        ensures
            new_value == alu::spec_add_result(old(self).registers.a, value),
            final(self)@ == old(self)@.with_flags(
                alu::spec_add_flags(old(self).registers.a, value),
            ),
    {
        let a = self.registers.a;
        let sum = a as u16 + value as u16;
        let did_overflow = sum > 0xFF;
        assert(sum & 0xFFu16 == sum % 256) by (bit_vector);
        let new_value = (sum & 0xFF) as u8;
        self.registers.f.zero = new_value == 0;
        self.registers.f.subtract = false;
        self.registers.f.carry = did_overflow;
        assert(a & 0xFu8 == a % 16) by (bit_vector);
        assert(value & 0xFu8 == value % 16) by (bit_vector);
        // A carry out of bit 3 happens when the low nibbles sum past 0xF.
        self.registers.f.half_carry = (a & 0xF) + (value & 0xF) > 0xF;
        new_value
    }

    /// `value - 1`, wrapping; sets zero, subtract and half-carry, keeps
    /// carry and everything else.
    pub fn dec(&mut self, value: u8) -> (new_value: u8)
        ensures
            new_value == alu::spec_dec_result(value),
            final(self)@ == old(self)@.with_flags(
                alu::spec_dec_flags(old(self).registers.f, value),
            ),
    {
        let new_value = value.wrapping_sub(1);
        self.registers.f.zero = new_value == 0;
        self.registers.f.subtract = true;
        self.registers.f.half_carry = (value & 0xF) == 0x0;
        assert(value & 0xFu8 == value % 16) by (bit_vector);
        new_value
    }

    /// `A ^ value`; sets zero when the result is zero and clears the other
    /// flags, leaving A and everything else unchanged.
    pub fn xor(&mut self, value: u8) -> (new_value: u8)
        ensures
            new_value == old(self).registers.a ^ value,
            final(self)@ == old(self)@.with_flags(
                alu::spec_xor_flags(old(self).registers.a, value),
            ),
    {
        let new_value = self.registers.a ^ value;
        self.registers.f.zero = new_value == 0;
        self.registers.f.subtract = false;
        self.registers.f.half_carry = false;
        self.registers.f.carry = false;
        new_value
    }

    /// Applies `work` to `value` and stores the result in
    /// `destination_register`, with the flags that `work` sets.
    pub fn manipulate_8bit_register(
        &mut self,
        destination_register: DestinationRegister,
        value: u8,
        work: RegisterWork,
    )
        ensures
            ({
                let (result, flags) = spec_register_work(old(self)@, work, value);
                final(self)@ == old(self)@.with_flags(flags).with_register(
                    destination_register,
                    result,
                )
            }),
    {
        let result = match work {
            RegisterWork::Decrement => self.dec(value),
            RegisterWork::ExclusiveOr => self.xor(value),
        };
        match destination_register {
            DestinationRegister::A => self.registers.a = result,
            DestinationRegister::B => self.registers.b = result,
            DestinationRegister::C => self.registers.c = result,
            DestinationRegister::D => self.registers.d = result,
            DestinationRegister::E => self.registers.e = result,
            DestinationRegister::H => self.registers.h = result,
            DestinationRegister::L => self.registers.l = result,
        };
    }

    /// Whether the instruction at the program counter is implemented and can
    /// be executed now.
    pub fn can_step(&self) -> (defined: bool)
        ensures
            defined == spec_step_defined(self@),
    {
        let opcode = self.memory_bus.read_byte(self.pc);
        match Self::try_decode(opcode) {
            Some(instruction) => self.is_executable(&instruction),
            None => false,
        }
    }

    /// Fetches, decodes and executes the instruction at the program counter,
    /// moves the program counter on, and returns the cycles taken.
    pub fn step(&mut self) -> (cycles: u8)
        requires
            spec_step_defined(old(self)@),
        ensures
            (final(self)@, cycles) == spec_step(old(self)@),
    {
        let opcode = self.memory_bus.read_byte(self.pc);
        let instruction = self.decode(opcode);
        let (next_pc, cycles) = self.execute(instruction);
        self.pc = next_pc;
        cycles
    }
    /// Runs instructions until at least `target_cycles` cycles have been
    /// spent. Returns `Ok` with the cycles spent, or `Err` with the cycles
    /// spent so far when the instruction at the program counter cannot be
    /// executed (it is then left unexecuted).
    pub fn run_cycles(&mut self, target_cycles: usize) -> (outcome: Result<usize, usize>)
        requires
            target_cycles <= usize::MAX - 16,
        ensures
            ({
                let (t, total, reached) = spec_run(old(self)@, 0, target_cycles as nat);
                &&& final(self)@ == t
                &&& reached ==> outcome == Ok::<usize, usize>(total as usize)
                &&& !reached ==> outcome == Err::<usize, usize>(total as usize)
            }),
    {
        let mut cycle_count_total: usize = 0;
        while cycle_count_total < target_cycles
            invariant
                target_cycles <= usize::MAX - 16,
                cycle_count_total < target_cycles + 16,
                spec_run(self@, cycle_count_total as nat, target_cycles as nat) == spec_run(
                    old(self)@,
                    0,
                    target_cycles as nat,
                ),
            decreases target_cycles + 16 - cycle_count_total,
        {
            if !self.can_step() {
                return Err(cycle_count_total);
            }
            proof {
                lemma_execute_cycles(self@, spec_decode(self@.read(self@.pc))->Some_0);
            }
            let cycles = self.step();
            cycle_count_total = cycle_count_total + cycles as usize;
        }
        Ok(cycle_count_total)
    }
}

} // verus!
