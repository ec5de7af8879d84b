//! The status register: named flag bits and the rules that derive the zero
//! and negative flags from a data value.
//!
//! Bit layout, most significant bit first: `NV-- DIZC`.

use vstd::prelude::*;

verus! {

/// Carry flag, bit 0.
pub const CARRY: u8 = 0b0000_0001;

/// Zero flag, bit 1: the last result was zero.
pub const ZERO: u8 = 0b0000_0010;

/// Interrupt-disable flag, bit 2.
pub const INTERRUPT: u8 = 0b0000_0100;

/// Decimal-mode flag, bit 3.
pub const DECIMAL: u8 = 0b0000_1000;

/// Overflow flag, bit 6.
pub const OVERFLOW: u8 = 0b0100_0000;

/// Negative flag, bit 7: mirrors the sign bit of the last result.
pub const NEGATIVE: u8 = 0b1000_0000;

/// Whether any bit of `mask` is set in `status`.
pub open spec fn flag_is_set(status: u8, mask: u8) -> bool {
    status & mask != 0
}

/// `status` with the bits of `mask` set when `on` holds and cleared otherwise.
pub open spec fn with_flag(status: u8, mask: u8, on: bool) -> u8 {
    if on {
        status | mask
    } else {
        status & !mask
    }
}

/// Whether bit 7, the sign bit, of `value` is set.
pub open spec fn sign_bit(value: u8) -> bool {
    value & 0x80 != 0
}

/// `status` after a data-mutating instruction produced `value`: the zero and
/// negative flags are recomputed from `value`, every other bit is kept.
pub open spec fn with_zero_and_negative(status: u8, value: u8) -> u8 {
    with_flag(with_flag(status, ZERO, value == 0), NEGATIVE, sign_bit(value))
}

/// Writing one flag makes that flag read back as written and leaves every
/// other bit of the status register as it was.
pub proof fn lemma_with_flag(status: u8, mask: u8, on: bool)
    requires
        mask != 0,
    ensures
        flag_is_set(with_flag(status, mask, on), mask) <==> on,
        with_flag(status, mask, on) & !mask == status & !mask,
{
    assert((status | mask) & mask != 0) by (bit_vector)
        requires
            mask != 0,
    ;
    assert((status & !mask) & mask == 0) by (bit_vector);
    assert((status | mask) & !mask == status & !mask) by (bit_vector);
    assert((status & !mask) & !mask == status & !mask) by (bit_vector);
}

/// The sign bit is set exactly for the upper half of the byte range.
pub proof fn lemma_sign_bit_is_upper_half(value: u8)
    ensures
        sign_bit(value) <==> value >= 128,
{
    assert((value & 0x80 != 0) <==> value >= 128) by (bit_vector);
}

/// After the zero and negative flags are recomputed from `value`, the zero
/// flag is set exactly when `value` is zero, the negative flag exactly when
/// the sign bit of `value` is set, and no other bit of the status register
/// has changed.
pub proof fn lemma_with_zero_and_negative(status: u8, value: u8)
    ensures
        flag_is_set(with_zero_and_negative(status, value), ZERO) <==> value == 0,
        flag_is_set(with_zero_and_negative(status, value), NEGATIVE) <==> sign_bit(value),
        with_zero_and_negative(status, value) & !(ZERO | NEGATIVE) == status & !(ZERO | NEGATIVE),
{
    let first = with_flag(status, ZERO, value == 0);
    let second = with_flag(first, NEGATIVE, sign_bit(value));
    lemma_with_flag(status, ZERO, value == 0);
    lemma_with_flag(first, NEGATIVE, sign_bit(value));
    assert(second & ZERO != 0 <==> first & ZERO != 0) by (bit_vector)
        requires
            second & !NEGATIVE == first & !NEGATIVE,
    ;
    assert(second & !(ZERO | NEGATIVE) == status & !(ZERO | NEGATIVE)) by (bit_vector)
        requires
            second & !NEGATIVE == first & !NEGATIVE,
            first & !ZERO == status & !ZERO,
    ;
}

} // verus!
