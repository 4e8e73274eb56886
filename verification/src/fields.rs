//! Typed field accessors: read and write a named bit field of a register
//! byte, clearing exactly the field's span and leaving every other bit as it
//! was. This is the central correctness invariant of the layer, proved here
//! for every declared field.

use vstd::prelude::*;

use crate::error::Error;
use crate::regmap::{Field, FieldKind};

verus! {

/// The byte with exactly the low `w` bits set.
pub open spec fn spec_low_mask(w: u8) -> u8
    recommends
        1 <= w <= 8,
{
    (((1u16 << w) - 1) as u8)
}

/// The byte with exactly the bits of field `f`'s span set.
pub open spec fn spec_field_mask(f: Field) -> u8 {
    spec_low_mask(f.spec_width()) << f.spec_offset()
}

/// The value field `f` holds in register byte `v`.
pub open spec fn spec_get_field(v: u8, f: Field) -> u8 {
    (v >> f.spec_offset()) & spec_low_mask(f.spec_width())
}

/// Register byte `v` with field `f` set to `x` (for `x` within the field's
/// width): the field's span is cleared and `x` shifted in; no other bit moves.
pub open spec fn spec_set_field(v: u8, f: Field, x: u8) -> u8 {
    (v & !spec_field_mask(f)) | (x << f.spec_offset())
}

/// Whether `x` is a value field `f` accepts: within the bit width for raw
/// fields, a pattern of the symbol table for enumerated ones.
pub open spec fn spec_accepts(f: Field, x: u8) -> bool {
    match f.spec_kind() {
        FieldKind::Raw => x <= spec_low_mask(f.spec_width()),
        FieldKind::Enumerated => f.spec_in_table(x),
    }
}

/// The error a field rejects a value with: overflow for raw fields, an
/// unknown symbol for enumerated ones.
pub open spec fn spec_field_error(f: Field) -> Error {
    match f.spec_kind() {
        FieldKind::Raw => Error::FieldOverflow,
        FieldKind::Enumerated => Error::InvalidFieldValue,
    }
}

/// Every declared field has a nonzero width, lies within the single byte of
/// its register, and belongs to a one-byte register.
pub proof fn lemma_field_well_formed(f: Field)
    ensures
        1 <= f.spec_width(),
        f.spec_offset() + f.spec_width() <= 8,
        f.spec_register().spec_width() == 1,
{
}

/// Every accepted value fits in the field's width.
pub proof fn lemma_accepts_bounded(f: Field, x: u8)
    requires
        spec_accepts(f, x),
    ensures
        x <= spec_low_mask(f.spec_width()),
{
    if f.spec_kind() is Enumerated {
        assert(x <= 15);
        assert(spec_low_mask(2) == 3) by (bit_vector);
        assert(spec_low_mask(3) == 7) by (bit_vector);
        assert(spec_low_mask(4) == 15) by (bit_vector);
    }
}

/// Bit-level facts behind `set_field`: writing an in-width value into the
/// span at offset `o`, width `w`, reads back as the value, and the bits
/// outside the span keep their old value.
proof fn lemma_set_field_bits(v: u8, o: u8, w: u8, x: u8)
    by (bit_vector)
    requires
        1 <= w,
        o + w <= 8,
        x <= (((1u16 << w) - 1) as u8),
    ensures
        (((v & !((((1u16 << w) - 1) as u8) << o)) | (x << o)) >> o) & (((1u16 << w) - 1) as u8)
            == x,
        ((v & !((((1u16 << w) - 1) as u8) << o)) | (x << o)) & !((((1u16 << w) - 1) as u8) << o)
            == v & !((((1u16 << w) - 1) as u8) << o),
{
}

/// Read the value of field `f` from register byte `v`.
pub fn get_field(v: u8, f: Field) -> (x: u8)
    ensures
        x == spec_get_field(v, f),
        x <= spec_low_mask(f.spec_width()),
{
    proof {
        lemma_field_well_formed(f);
    }
    let o = f.offset();
    let m = low_mask(f.width());
    let x = (v >> o) & m;
    proof {
        assert((v >> o) & m <= m) by (bit_vector);
    }
    x
}

/// Set field `f` of register byte `v` to `x`, failing exactly when the field
/// rejects `x`. On success the result holds `x` in `f`'s span and the old
/// value of `v` in every other bit.
pub fn set_field(v: u8, f: Field, x: u8) -> (r: Result<u8, Error>)
    ensures
        r is Ok <==> spec_accepts(f, x),
        r matches Ok(w) ==> w == spec_set_field(v, f, x),
        r matches Ok(w) ==> spec_get_field(w, f) == x,
        r matches Ok(w) ==> (w & !spec_field_mask(f)) == (v & !spec_field_mask(f)),
        r matches Err(e) ==> e == spec_field_error(f),
{
    proof {
        lemma_field_well_formed(f);
    }
    let accepted = match f.kind() {
        FieldKind::Raw => x <= low_mask(f.width()),
        FieldKind::Enumerated => f.in_table(x),
    };
    if !accepted {
        match f.kind() {
            FieldKind::Raw => Err(Error::FieldOverflow),
            FieldKind::Enumerated => Err(Error::InvalidFieldValue),
        }
    } else {
        let o = f.offset();
        let m = low_mask(f.width());
        let w = (v & !(m << o)) | (x << o);
        proof {
            lemma_accepts_bounded(f, x);
            lemma_set_field_bits(v, o, f.spec_width(), x);
        }
        Ok(w)
    }
}

/// The byte with exactly the low `w` bits set.
fn low_mask(w: u8) -> (m: u8)
    requires
        1 <= w <= 8,
    ensures
        m == spec_low_mask(w),
{
    proof {
        assert(2 <= (1u16 << w) && (1u16 << w) <= 256) by (bit_vector)
            requires
                1 <= w && w <= 8,
        ;
    }
    ((1u16 << w) - 1) as u8
}

/// The round trip and non-interference law: for every field `f` and every
/// value `x` the field accepts, setting `f` to `x` and reading it back gives
/// `x`, and every bit outside `f`'s span keeps the value it had in `v`.
pub proof fn lemma_set_get_roundtrip(v: u8, f: Field, x: u8)
    requires
        spec_accepts(f, x),
    ensures
        spec_get_field(spec_set_field(v, f, x), f) == x,
        (spec_set_field(v, f, x) & !spec_field_mask(f)) == (v & !spec_field_mask(f)),
{
    lemma_field_well_formed(f);
    lemma_accepts_bounded(f, x);
    lemma_set_field_bits(v, f.spec_offset(), f.spec_width(), x);
}

/// The bit spans of two distinct fields of the same register never overlap.
pub proof fn lemma_register_map_well_formed(f: Field, g: Field)
    requires
        f.spec_register() == g.spec_register(),
        f != g,
    ensures
        f.spec_offset() + f.spec_width() <= g.spec_offset()
            || g.spec_offset() + g.spec_width() <= f.spec_offset(),
        spec_field_mask(f) & spec_field_mask(g) == 0,
{
    lemma_field_well_formed(f);
    lemma_field_well_formed(g);
    lemma_disjoint_spans_disjoint_masks(
        f.spec_offset(),
        f.spec_width(),
        g.spec_offset(),
        g.spec_width(),
    );
}

/// Masks of disjoint bit spans have no common bit.
proof fn lemma_disjoint_spans_disjoint_masks(o1: u8, w1: u8, o2: u8, w2: u8)
    by (bit_vector)
    requires
        1 <= w1,
        o1 + w1 <= 8,
        1 <= w2,
        o2 + w2 <= 8,
        o1 + w1 <= o2 || o2 + w2 <= o1,
    ensures
        ((((1u16 << w1) - 1) as u8) << o1) & ((((1u16 << w2) - 1) as u8) << o2) == 0,
{
}

/// Setting one field never changes what a distinct field of the same register
/// reads back.
pub proof fn lemma_set_field_preserves_others(v: u8, f: Field, g: Field, x: u8)
    requires
        spec_accepts(f, x),
        f.spec_register() == g.spec_register(),
        f != g,
    ensures
        spec_get_field(spec_set_field(v, f, x), f) == x,
        spec_get_field(spec_set_field(v, f, x), g) == spec_get_field(v, g),
{
    lemma_set_get_roundtrip(v, f, x);
    lemma_register_map_well_formed(f, g);
    let w = spec_set_field(v, f, x);
    lemma_agree_on_mask(v, w, g.spec_offset(), g.spec_width(), spec_field_mask(f));
}

/// If two bytes differ only inside a mask that is disjoint from a field's
/// span, the field reads the same from both.
proof fn lemma_agree_on_mask(v: u8, w: u8, o: u8, wd: u8, other: u8)
    by (bit_vector)
    requires
        1 <= wd,
        o + wd <= 8,
        w & !other == v & !other,
        other & ((((1u16 << wd) - 1) as u8) << o) == 0,
    ensures
        (w >> o) & (((1u16 << wd) - 1) as u8) == (v >> o) & (((1u16 << wd) - 1) as u8),
{
}

} // verus!
