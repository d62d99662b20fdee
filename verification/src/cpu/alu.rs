use vstd::prelude::*;

use crate::cpu::registers::FlagsRegister;

verus! {

/// The eight-bit sum of `a` and `value`, wrapping past `0xFF`.
pub open spec fn spec_add_result(a: u8, value: u8) -> u8 {
    ((a + value) % 256) as u8
}

/// Flags after adding `value` to `a`: zero when the eight-bit sum is zero,
/// half-carry when the low nibbles overflow, carry when the full sum does.
pub open spec fn spec_add_flags(a: u8, value: u8) -> FlagsRegister {
    FlagsRegister {
        zero: spec_add_result(a, value) == 0,
        subtract: false,
        half_carry: a % 16 + value % 16 > 15,
        carry: a + value > 255,
    }
}

/// `value` minus one, wrapping from zero to `0xFF`.
pub open spec fn spec_dec_result(value: u8) -> u8 {
    if value == 0 {
        255
    } else {
        (value - 1) as u8
    }
}

/// Flags after decrementing `value`: zero when the result is zero,
/// subtract set, half-carry when the low nibble borrows; carry kept.
pub open spec fn spec_dec_flags(flags: FlagsRegister, value: u8) -> FlagsRegister {
    FlagsRegister {
        zero: spec_dec_result(value) == 0,
        subtract: true,
        half_carry: value % 16 == 0,
        carry: flags.carry,
    }
}

/// Flags after `a ^ value`: zero when the result is zero, every other flag
/// cleared.
pub open spec fn spec_xor_flags(a: u8, value: u8) -> FlagsRegister {
    FlagsRegister { zero: a ^ value == 0, subtract: false, half_carry: false, carry: false }
}

/// Flags after comparing `a` with `value` (a subtraction whose result is
/// dropped): zero when equal, subtract set, half-carry when the low nibble
/// of `a` is below that of `value`, carry when `a` is below `value`.
pub open spec fn spec_compare_flags(a: u8, value: u8) -> FlagsRegister {
    FlagsRegister { zero: a == value, subtract: true, half_carry: a % 16 < value % 16, carry: a < value }
}

/// The eight-bit sum and the carry flag together give the full sum.
pub proof fn lemma_add_carry(a: u8, value: u8)
    ensures
        spec_add_result(a, value) + (if spec_add_flags(a, value).carry {
            256int
        } else {
            0
        }) == a + value,
{
}

/// Addition is commutative, flags included.
pub proof fn lemma_add_commutes(a: u8, value: u8)
    ensures
        spec_add_result(a, value) == spec_add_result(value, a),
        spec_add_flags(a, value) == spec_add_flags(value, a),
{
}

/// Exclusive-or of a value with itself is zero and sets the zero flag.
pub proof fn lemma_xor_self(a: u8)
    ensures
        a ^ a == 0,
        spec_xor_flags(a, a).zero,
{
    assert(a ^ a == 0) by (bit_vector);
}

/// Exclusive-or with zero keeps the value.
pub proof fn lemma_xor_zero(a: u8)
    ensures
        a ^ 0 == a,
        spec_xor_flags(a, 0).zero == (a == 0),
{
    assert(a ^ 0 == a) by (bit_vector);
}

/// Exclusive-or with the same value twice gives the first value back, and
/// the zero flag is set exactly when the two operands are equal.
pub proof fn lemma_xor_undo(a: u8, value: u8)
    ensures
        (a ^ value) ^ value == a,
        spec_xor_flags(a, value).zero == (a == value),
{
    assert((a ^ value) ^ value == a) by (bit_vector);
    assert((a ^ value == 0) == (a == value)) by (bit_vector);
}

/// Decrementing undoes adding one.
pub proof fn lemma_dec_undoes_increment(value: u8)
    ensures
        spec_dec_result(spec_add_result(value, 1)) == value,
{
}

/// A comparison sets the zero and carry flags exactly as the subtraction
/// `a - value` would: zero when the difference is zero, carry on borrow.
pub proof fn lemma_compare_is_subtraction(a: u8, value: u8)
    ensures
        spec_compare_flags(a, value).zero == (a - value == 0),
        spec_compare_flags(a, value).carry == (a - value < 0),
{
}

} // verus!
