//! Bitfield accessors for memory-mapped registers.
//!
//! A peripheral register is a whole 32-bit word holding named fields at fixed
//! offsets and widths.  Every write goes through [`field_set`], which rewrites
//! the whole word: no partial-field read-modify-write races against
//! hardware-latched bits.  Arithmetic on raw bits is confined to this module.

use vstd::prelude::*;

verus! {

/// The all-ones mask of a `width`-bit field, right-aligned.
pub open spec fn mask(width: u32) -> u32
    recommends
        0 < width < 32,
{
    ((1u32 << width) - 1) as u32
}

/// The value of the `width`-bit field at bit `offset` of `reg`.
pub open spec fn spec_field_get(reg: u32, offset: u32, width: u32) -> u32
    recommends
        0 < width < 32,
        offset + width <= 32,
{
    (reg >> offset) & mask(width)
}

/// `reg` with the `width`-bit field at bit `offset` replaced by `val`.
pub open spec fn spec_field_set(reg: u32, offset: u32, width: u32, val: u32) -> u32
    recommends
        0 < width < 32,
        offset + width <= 32,
        val <= mask(width),
{
    (reg & !((mask(width) << offset) as u32)) | ((val << offset) as u32)
}

/// Single-bit field read as a flag.
pub open spec fn spec_bit(reg: u32, offset: u32) -> bool
    recommends
        offset < 32,
{
    spec_field_get(reg, offset, 1) == 1
}

pub fn field_get(reg: u32, offset: u32, width: u32) -> (r: u32)
    requires
        0 < width < 32,
        offset + width <= 32,
    ensures
        r == spec_field_get(reg, offset, width),
        r <= mask(width),
{
    proof {
        lemma_field_get_bounded(reg, offset, width);
        assert(1u32 << width >= 1) by (bit_vector)
            requires
                width < 32u32,
        ;
    }
    (reg >> offset) & ((1u32 << width) - 1)
}

pub fn field_set(reg: u32, offset: u32, width: u32, val: u32) -> (r: u32)
    requires
        0 < width < 32,
        offset + width <= 32,
        val <= mask(width),
    ensures
        r == spec_field_set(reg, offset, width, val),
        spec_field_get(r, offset, width) == val,
{
    proof {
        lemma_field_set_get_same(reg, offset, width, val);
        assert(1u32 << width >= 1) by (bit_vector)
            requires
                width < 32u32,
        ;
    }
    let m: u32 = (1u32 << width) - 1;
    (reg & !(m << offset)) | (val << offset)
}

pub fn bit_get(reg: u32, offset: u32) -> (r: bool)
    requires
        offset < 32,
    ensures
        r == spec_bit(reg, offset),
{
    field_get(reg, offset, 1) == 1
}

pub fn bit_set(reg: u32, offset: u32, on: bool) -> (r: u32)
    requires
        offset < 32,
    ensures
        r == spec_field_set(reg, offset, 1, if on {
            1u32
        } else {
            0u32
        }),
        spec_bit(r, offset) == on,
{
    proof {
        assert(mask(1) == 1) by (bit_vector);
    }
    field_set(reg, offset, 1, if on { 1 } else { 0 })
}

/// A field read never exceeds the field's width.
pub proof fn lemma_field_get_bounded(reg: u32, offset: u32, width: u32)
    requires
        0 < width < 32,
        offset + width <= 32,
    ensures
        spec_field_get(reg, offset, width) <= mask(width),
{
    assert(spec_field_get(reg, offset, width) <= mask(width)) by (bit_vector)
        requires
            0 < width < 32u32,
            offset + width <= 32u32,
    ;
}

/// Writing a field and reading it back yields the written value.
pub proof fn lemma_field_set_get_same(reg: u32, offset: u32, width: u32, val: u32)
    requires
        0 < width < 32,
        offset + width <= 32,
        val <= mask(width),
    ensures
        spec_field_get(spec_field_set(reg, offset, width, val), offset, width) == val,
{
    assert(spec_field_get(spec_field_set(reg, offset, width, val), offset, width) == val)
        by (bit_vector)
        requires
            0 < width < 32u32,
            offset + width <= 32u32,
            val <= mask(width),
    ;
}

/// Writing one field leaves every disjoint field unchanged.
pub proof fn lemma_field_set_get_other(
    reg: u32,
    offset: u32,
    width: u32,
    val: u32,
    offset2: u32,
    width2: u32,
)
    requires
        0 < width < 32,
        offset + width <= 32,
        val <= mask(width),
        0 < width2 < 32,
        offset2 + width2 <= 32,
        offset + width <= offset2 || offset2 + width2 <= offset,
    ensures
        spec_field_get(spec_field_set(reg, offset, width, val), offset2, width2)
            == spec_field_get(reg, offset2, width2),
{
    assert(spec_field_get(spec_field_set(reg, offset, width, val), offset2, width2)
        == spec_field_get(reg, offset2, width2)) by (bit_vector)
        requires
            0 < width < 32u32,
            offset + width <= 32u32,
            val <= mask(width),
            0 < width2 < 32u32,
            offset2 + width2 <= 32u32,
            offset + width <= offset2 || offset2 + width2 <= offset,
    ;
}

} // verus!
