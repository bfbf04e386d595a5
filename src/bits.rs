//! Bit-range access on a 16-bit register word.
//!
//! A field is the inclusive bit range `lsb..=msb` of a word. The accessors of
//! every register type are stated with [`field_value`] and [`with_field`] (and
//! their one-bit forms [`flag`] and [`with_flag`]), so the laws proved here
//! hold for every field of every register.
use vstd::prelude::*;

verus! {

/// The mask that selects bits `lsb..=msb` of a word.
pub open spec fn field_mask(msb: u16, lsb: u16) -> u16 {
    ((0xffffu16 >> ((15 - msb + lsb) as u16)) << lsb) as u16
}

/// The largest value that a field of bits `lsb..=msb` can hold.
pub open spec fn field_max(msb: u16, lsb: u16) -> u16 {
    0xffffu16 >> ((15 - msb + lsb) as u16)
}

/// The bits `lsb..=msb` of `word`, right-aligned.
pub open spec fn field_value(word: u16, msb: u16, lsb: u16) -> u16 {
    (word >> lsb) & field_max(msb, lsb)
}

/// `word` with bits `lsb..=msb` replaced by the low bits of `value`; every
/// other bit is copied from `word`.
pub open spec fn with_field(word: u16, msb: u16, lsb: u16, value: u16) -> u16 {
    (word & !field_mask(msb, lsb)) | (((value << lsb) as u16) & field_mask(msb, lsb))
}

/// Whether bit `pos` of `word` is set.
pub open spec fn flag(word: u16, pos: u16) -> bool {
    (word >> pos) & 1u16 == 1u16
}

/// `word` with bit `pos` set to `value`; every other bit is copied from `word`.
pub open spec fn with_flag(word: u16, pos: u16, value: bool) -> u16 {
    with_field(word, pos, pos, if value { 1u16 } else { 0u16 })
}

/// Whether `msb` and `lsb` describe a field of a 16-bit word that fits in a byte.
pub open spec fn byte_field(msb: usize, lsb: usize) -> bool {
    lsb <= msb && msb < 16 && msb - lsb < 8
}

/// Relies on bitfield's `BitRange<u8> for u16`: `bit_range(msb, lsb)` returns
/// bits `lsb..=msb` of the word, right-aligned.
#[verifier::external_body]
pub(crate) fn get_bits(word: u16, msb: usize, lsb: usize) -> (r: u8)
    requires
        byte_field(msb, lsb),
    ensures
        r as u16 == field_value(word, msb as u16, lsb as u16),
{
    bitfield::BitRange::<u8>::bit_range(&word, msb, lsb)
}

/// Relies on bitfield's `BitRangeMut<u8> for u16`: `set_bit_range(msb, lsb, v)`
/// clears bits `lsb..=msb` and ors in `v << lsb` masked to that range.
#[verifier::external_body]
pub(crate) fn put_bits(word: u16, msb: usize, lsb: usize, value: u8) -> (r: u16)
    requires
        byte_field(msb, lsb),
    ensures
        r == with_field(word, msb as u16, lsb as u16, value as u16),
{
    let mut w = word;
    bitfield::BitRangeMut::<u8>::set_bit_range(&mut w, msb, lsb, value);
    w
}

/// Relies on bitfield's `Bit` for `u16`: `bit(pos)` is `bit_range(pos, pos) != 0`.
#[verifier::external_body]
pub(crate) fn get_bit(word: u16, pos: usize) -> (r: bool)
    requires
        pos < 16,
    ensures
        r == flag(word, pos as u16),
{
    bitfield::Bit::bit(&word, pos)
}

/// Relies on bitfield's `BitMut` for `u16`: `set_bit(pos, v)` is
/// `set_bit_range(pos, pos, v as u8)`.
#[verifier::external_body]
pub(crate) fn put_bit(word: u16, pos: usize, value: bool) -> (r: u16)
    requires
        pos < 16,
    ensures
        r == with_flag(word, pos as u16, value),
{
    let mut w = word;
    bitfield::BitMut::set_bit(&mut w, pos, value);
    w
}

/// Writing a value that fits a field and reading the field back gives that
/// value.
pub proof fn lemma_field_round_trip(word: u16, msb: u16, lsb: u16, value: u16)
    requires
        lsb <= msb < 16,
        value <= field_max(msb, lsb),
    ensures
        field_value(with_field(word, msb, lsb, value), msb, lsb) == value,
{
    assert(((((word & !(((0xffffu16 >> ((15 - msb + lsb) as u16)) << lsb) as u16))
        | (((value << lsb) as u16) & (((0xffffu16 >> ((15 - msb + lsb) as u16)) << lsb) as u16)))
        >> lsb) & (0xffffu16 >> ((15 - msb + lsb) as u16))) == value) by (bit_vector)
        requires
            lsb <= msb < 16,
            value <= 0xffffu16 >> ((15 - msb + lsb) as u16),
    ;
}

/// Writing a field leaves every bit outside `lsb..=msb` as it was.
pub proof fn lemma_field_non_interference(word: u16, msb: u16, lsb: u16, value: u16, pos: u16)
    requires
        lsb <= msb < 16,
        pos < 16,
        pos < lsb || msb < pos,
    ensures
        flag(with_field(word, msb, lsb, value), pos) == flag(word, pos),
{
    assert((((((word & !(((0xffffu16 >> ((15 - msb + lsb) as u16)) << lsb) as u16))
        | (((value << lsb) as u16) & (((0xffffu16 >> ((15 - msb + lsb) as u16)) << lsb) as u16)))
        >> pos) & 1u16) == 1u16) == (((word >> pos) & 1u16) == 1u16)) by (bit_vector)
        requires
            lsb <= msb < 16,
            pos < 16,
            pos < lsb || msb < pos,
    ;
}

/// Writing a flag and reading it back gives the value written.
pub proof fn lemma_flag_round_trip(word: u16, pos: u16, value: bool)
    requires
        pos < 16,
    ensures
        flag(with_flag(word, pos, value), pos) == value,
{
    let v: u16 = if value { 1u16 } else { 0u16 };
    assert(((((word & !(((0xffffu16 >> ((15 - pos + pos) as u16)) << pos) as u16))
        | (((v << pos) as u16) & (((0xffffu16 >> ((15 - pos + pos) as u16)) << pos) as u16)))
        >> pos) & 1u16) == v) by (bit_vector)
        requires
            pos < 16,
            v <= 1,
    ;
}

/// Writing a field changes no bit outside its range: the word and the result
/// agree under the complement of the field's mask.
pub proof fn lemma_field_keeps_outside(word: u16, msb: u16, lsb: u16, value: u16)
    requires
        lsb <= msb < 16,
    ensures
        with_field(word, msb, lsb, value) & !field_mask(msb, lsb) == word & !field_mask(msb, lsb),
{
    assert((((word & !(((0xffffu16 >> ((15 - msb + lsb) as u16)) << lsb) as u16))
        | (((value << lsb) as u16) & (((0xffffu16 >> ((15 - msb + lsb) as u16)) << lsb) as u16)))
        & !(((0xffffu16 >> ((15 - msb + lsb) as u16)) << lsb) as u16))
        == (word & !(((0xffffu16 >> ((15 - msb + lsb) as u16)) << lsb) as u16))) by (bit_vector)
        requires
            lsb <= msb < 16,
    ;
}

/// Writing one field leaves the value of every field that does not overlap it
/// as it was.
pub proof fn lemma_disjoint_fields(word: u16, msb: u16, lsb: u16, value: u16, msb2: u16, lsb2: u16)
    requires
        lsb <= msb < 16,
        lsb2 <= msb2 < 16,
        msb < lsb2 || msb2 < lsb,
    ensures
        field_value(with_field(word, msb, lsb, value), msb2, lsb2) == field_value(word, msb2, lsb2),
{
    assert((((((word & !(((0xffffu16 >> ((15 - msb + lsb) as u16)) << lsb) as u16))
        | (((value << lsb) as u16) & (((0xffffu16 >> ((15 - msb + lsb) as u16)) << lsb) as u16)))
        >> lsb2) & (0xffffu16 >> ((15 - msb2 + lsb2) as u16))))
        == ((word >> lsb2) & (0xffffu16 >> ((15 - msb2 + lsb2) as u16)))) by (bit_vector)
        requires
            lsb <= msb < 16,
            lsb2 <= msb2 < 16,
            msb < lsb2 || msb2 < lsb,
    ;
}

} // verus!
