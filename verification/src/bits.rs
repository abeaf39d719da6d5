//! Bit-field arithmetic on 64-bit words.
//!
//! A field is described by a `mask` that selects its bits in place and a
//! `shift`, the position of its lowest bit. `field_of` reads a field,
//! `with_field` writes one, leaving every other bit of the word unchanged.

use vstd::prelude::*;

verus! {

/// The value of the field `mask`/`shift` in `raw`.
pub open spec fn field_of(raw: u64, mask: u64, shift: u64) -> u64 {
    (raw & mask) >> shift
}

/// `raw` with the field `mask`/`shift` replaced by the low bits of `value`.
pub open spec fn with_field(raw: u64, mask: u64, shift: u64, value: u64) -> u64 {
    (raw & !mask) | ((value << shift) & mask)
}

/// The largest value the field `mask`/`shift` can hold.
pub open spec fn field_max(mask: u64, shift: u64) -> u64 {
    mask >> shift
}

/// A field description whose mask holds no bit below `shift`.
pub open spec fn field_fits(mask: u64, shift: u64) -> bool {
    shift < 64 && (mask >> shift) << shift == mask
}

/// Reading back a field that was just written gives the written value, cut to
/// the field's width.
pub proof fn lemma_field_of_with_field_same(raw: u64, mask: u64, shift: u64, value: u64)
    requires
        field_fits(mask, shift),
    ensures
        field_of(with_field(raw, mask, shift, value), mask, shift) == value & field_max(mask, shift),
{
    assert((((raw & !mask) | ((value << shift) & mask)) & mask) == ((value << shift) & mask))
        by (bit_vector);
    assert((((value << shift) & mask) >> shift) == (value & (mask >> shift))) by (bit_vector)
        requires
            shift < 64,
            (mask >> shift) << shift == mask,
    ;
}

/// Writing one field leaves every bit outside it unchanged, so a field that does
/// not overlap it reads as before.
pub proof fn lemma_field_of_with_field_other(
    raw: u64,
    mask: u64,
    shift: u64,
    value: u64,
    other_mask: u64,
    other_shift: u64,
)
    requires
        mask & other_mask == 0,
    ensures
        field_of(with_field(raw, mask, shift, value), other_mask, other_shift) == field_of(
            raw,
            other_mask,
            other_shift,
        ),
{
    assert((((raw & !mask) | ((value << shift) & mask)) & other_mask) == (raw & other_mask))
        by (bit_vector)
        requires
            mask & other_mask == 0,
    ;
}

/// Reads the field `mask`/`shift` of `raw`.
pub fn get_field(raw: u64, mask: u64, shift: u64) -> (r: u64)
    requires
        shift < 64,
    ensures
        r == field_of(raw, mask, shift),
{
    (raw & mask) >> shift
}

/// Returns `raw` with the field `mask`/`shift` set to `value`, cut to the
/// field's width.
pub fn set_field(raw: u64, mask: u64, shift: u64, value: u64) -> (r: u64)
    requires
        shift < 64,
    ensures
        r == with_field(raw, mask, shift, value),
{
    (raw & !mask) | ((value << shift) & mask)
}

} // verus!
