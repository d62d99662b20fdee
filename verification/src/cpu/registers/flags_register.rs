use vstd::prelude::*;

verus! {

/// The four condition flags of the processor.
#[derive(Clone, Copy, Debug)]
pub struct FlagsRegister {
    pub zero: bool,
    pub subtract: bool,
    pub half_carry: bool,
    pub carry: bool,
}

/// Every flag cleared.
pub open spec fn spec_cleared_flags() -> FlagsRegister {
    FlagsRegister { zero: false, subtract: false, half_carry: false, carry: false }
}

impl FlagsRegister {
    /// A flags register with every flag cleared.
    pub fn new() -> (flags: Self)
        ensures
            flags == spec_cleared_flags(),
    {
        Self { zero: false, subtract: false, half_carry: false, carry: false }
    }
}

const ZERO_FLAG_BYTE_POSITION: u8 = 7;

const SUBTRACT_FLAG_BYTE_POSITION: u8 = 6;

const HALF_CARRY_FLAG_BYTE_POSITION: u8 = 5;

const CARRY_FLAG_BYTE_POSITION: u8 = 4;

/// One for a set flag, zero for a cleared one.
pub open spec fn flag_bit(b: bool) -> int {
    if b {
        1
    } else {
        0
    }
}

/// The byte image of the flags: zero in bit 7, subtract in bit 6,
/// half-carry in bit 5, carry in bit 4; the low nibble is always clear.
pub open spec fn spec_flags_to_byte(f: FlagsRegister) -> u8 {
    (128 * flag_bit(f.zero) + 64 * flag_bit(f.subtract) + 32 * flag_bit(f.half_carry) + 16
        * flag_bit(f.carry)) as u8
}

/// The flags read back from a byte: bits 7 to 4 give zero, subtract,
/// half-carry and carry; bits 3 to 0 are ignored.
pub open spec fn spec_byte_to_flags(byte: u8) -> FlagsRegister {
    FlagsRegister {
        zero: (byte / 128) % 2 == 1,
        subtract: (byte / 64) % 2 == 1,
        half_carry: (byte / 32) % 2 == 1,
        carry: (byte / 16) % 2 == 1,
    }
}

fn bit_of(b: bool) -> (r: u8)
    ensures
        r == flag_bit(b),
{
    if b {
        1
    } else {
        0
    }
}

impl From<FlagsRegister> for u8 {
    fn from(flag: FlagsRegister) -> (byte: u8) {
        let z = bit_of(flag.zero);
        let s = bit_of(flag.subtract);
        let h = bit_of(flag.half_carry);
        let c = bit_of(flag.carry);
        let byte = z << ZERO_FLAG_BYTE_POSITION | s << SUBTRACT_FLAG_BYTE_POSITION | h
            << HALF_CARRY_FLAG_BYTE_POSITION | c << CARRY_FLAG_BYTE_POSITION;
        assert(byte == 128 * z + 64 * s + 32 * h + 16 * c) by (bit_vector)
            requires
                z <= 1,
                s <= 1,
                h <= 1,
                c <= 1,
                byte == z << 7u8 | s << 6u8 | h << 5u8 | c << 4u8,
        ;
        byte
    }
}

impl vstd::std_specs::convert::FromSpecImpl<FlagsRegister> for u8 {
    open spec fn obeys_from_spec() -> bool {
        true
    }

    open spec fn from_spec(v: FlagsRegister) -> u8 {
        spec_flags_to_byte(v)
    }
}

impl From<u8> for FlagsRegister {
    fn from(byte: u8) -> (flags: Self) {
        let zero = ((byte >> ZERO_FLAG_BYTE_POSITION) & 0b1) != 0;
        let subtract = ((byte >> SUBTRACT_FLAG_BYTE_POSITION) & 0b1) != 0;
        let half_carry = ((byte >> HALF_CARRY_FLAG_BYTE_POSITION) & 0b1) != 0;
        let carry = ((byte >> CARRY_FLAG_BYTE_POSITION) & 0b1) != 0;
        assert(((byte >> 7u8) & 1u8) == (byte / 128) % 2) by (bit_vector);
        assert(((byte >> 6u8) & 1u8) == (byte / 64) % 2) by (bit_vector);
        assert(((byte >> 5u8) & 1u8) == (byte / 32) % 2) by (bit_vector);
        assert(((byte >> 4u8) & 1u8) == (byte / 16) % 2) by (bit_vector);
        FlagsRegister { zero, subtract, half_carry, carry }
    }
}

impl vstd::std_specs::convert::FromSpecImpl<u8> for FlagsRegister {
    open spec fn obeys_from_spec() -> bool {
        true
    }

    open spec fn from_spec(v: u8) -> FlagsRegister {
        spec_byte_to_flags(v)
    }
}

/// Writing the flags into a byte and reading them back gives the same flags.
pub proof fn lemma_flags_byte_roundtrip(f: FlagsRegister)
    ensures
        spec_byte_to_flags(spec_flags_to_byte(f)) == f,
{
}

/// Reading flags from a byte and writing them back keeps bits 7 to 4 of
/// the byte and clears bits 3 to 0.
pub proof fn lemma_byte_flags_roundtrip(byte: u8)
    ensures
        spec_flags_to_byte(spec_byte_to_flags(byte)) == byte / 16 * 16,
{
}

/// The low nibble of a flags byte is always clear.
pub proof fn lemma_flags_byte_low_nibble_clear(f: FlagsRegister)
    ensures
        spec_flags_to_byte(f) % 16 == 0,
{
}

/// Each flag sits in its own bit of the byte: zero in bit 7, subtract in
/// bit 6, half-carry in bit 5, carry in bit 4, and bits 3 to 0 are clear.
pub proof fn lemma_flag_bit_positions(f: FlagsRegister)
    ensures
        ((spec_flags_to_byte(f) / 128) % 2 == 1) == f.zero,
        ((spec_flags_to_byte(f) / 64) % 2 == 1) == f.subtract,
        ((spec_flags_to_byte(f) / 32) % 2 == 1) == f.half_carry,
        ((spec_flags_to_byte(f) / 16) % 2 == 1) == f.carry,
        spec_flags_to_byte(f) % 16 == 0,
{
}

} // verus!
