//! Typed bitfield descriptors for 32-bit peripheral registers.
//!
//! A [`Field`] names a fixed-position, fixed-width sub-range of bits in a
//! register; a [`FieldValue`] is a field (or a union of fields) together
//! with the value to place in it. Composition of field values and
//! read-modify-write application are proved to behave as bitwise unions
//! that leave unrelated bits untouched.

use vstd::prelude::*;

verus! {

/// Mask of `width` one bits in the low positions, for `width <= 32`.
pub open spec fn low_bits(width: u32) -> u32 {
    ((1u64 << (width as u64)) - 1) as u32
}

/// A named sub-range of bits inside a 32-bit register: `width` bits
/// starting at bit `shift`.
#[derive(Clone, Copy, PartialEq, Eq, Structural)]
pub struct Field {
    pub shift: u32,
    pub width: u32,
}

/// A value destined for one field, or for a union of disjoint fields:
/// `value` is already shifted into place and never leaves `mask`.
#[derive(Clone, Copy, PartialEq, Eq, Structural)]
pub struct FieldValue {
    pub mask: u32,
    pub value: u32,
}

impl Field {
    /// A field is well formed when it is at least one bit wide and lies
    /// entirely inside the 32-bit register.
    pub open spec fn wf(self) -> bool {
        1 <= self.width && self.shift + self.width <= 32
    }

    /// The in-place mask of the field's bits.
    pub open spec fn mask(self) -> u32 {
        low_bits(self.width) << self.shift
    }

    /// The value a read of this field yields from the raw register
    /// value `raw`.
    pub open spec fn read_of(self, raw: u32) -> u32 {
        (raw >> self.shift) & low_bits(self.width)
    }

    /// Describes a field; out-of-range descriptors are rejected when the
    /// caller is verified.
    pub fn new(shift: u32, width: u32) -> (f: Field)
        requires
            1 <= width,
            shift + width <= 32,
        ensures
            f == (Field { shift, width }),
            f.wf(),
    {
        Field { shift, width }
    }

    /// Computes the in-place mask of the field.
    pub fn mask_value(&self) -> (m: u32)
        requires
            self.wf(),
        ensures
            m == self.mask(),
    {
        proof {
            let w = self.width;
            assert(1u64 << (w as u64) >= 1 && (1u64 << (w as u64)) - 1 <= 0xFFFF_FFFF)
                by (bit_vector)
                requires
                    w <= 32,
            ;
        }
        let low: u32 = ((1u64 << (self.width as u64)) - 1) as u32;
        low << self.shift
    }

    /// Places `v` into the field. A value that does not fit the field's
    /// width is unrepresentable: verification rejects the call.
    pub fn val(&self, v: u32) -> (fv: FieldValue)
        requires
            self.wf(),
            v & low_bits(self.width) == v,
        ensures
            fv.mask == self.mask(),
            fv.value == v << self.shift,
            fv.wf(),
    {
        let mask = self.mask_value();
        let value = v << self.shift;
        proof {
            let w = self.width;
            let s = self.shift;
            assert((v << s) & ((((1u64 << (w as u64)) - 1) as u32) << s) == v << s)
                by (bit_vector)
                requires
                    v & (((1u64 << (w as u64)) - 1) as u32) == v,
            ;
        }
        FieldValue { mask, value }
    }

    /// Reads the field out of a raw register value.
    pub fn read(&self, raw: u32) -> (v: u32)
        requires
            self.wf(),
        ensures
            v == self.read_of(raw),
    {
        proof {
            let w = self.width;
            assert(1u64 << (w as u64) >= 1 && (1u64 << (w as u64)) - 1 <= 0xFFFF_FFFF)
                by (bit_vector)
                requires
                    w <= 32,
            ;
        }
        let low: u32 = ((1u64 << (self.width as u64)) - 1) as u32;
        (raw >> self.shift) & low
    }

    /// True when any bit of the field is set in `raw`.
    pub fn is_set(&self, raw: u32) -> (b: bool)
        requires
            self.wf(),
        ensures
            b == (self.read_of(raw) != 0),
    {
        self.read(raw) != 0
    }
}

impl FieldValue {
    /// The shifted value stays inside the mask.
    pub open spec fn wf(self) -> bool {
        self.value & self.mask == self.value
    }

    /// The result of read-modify-writing this field value over the raw
    /// register value `raw`: bits under the mask are replaced, all
    /// others keep their previous value.
    pub open spec fn applied_to(self, raw: u32) -> u32 {
        (raw & !self.mask) | self.value
    }

    /// Composes two field values: the union of their masks and of their
    /// shifted values, so several fields can be written in one register
    /// access.
    pub fn combine(self, other: FieldValue) -> (fv: FieldValue)
        requires
            self.wf(),
            other.wf(),
        ensures
            fv.mask == self.mask | other.mask,
            fv.value == self.value | other.value,
            fv.wf(),
    {
        proof {
            let (m1, v1, m2, v2) = (self.mask, self.value, other.mask, other.value);
            assert((v1 | v2) & (m1 | m2) == (v1 | v2)) by (bit_vector)
                requires
                    v1 & m1 == v1,
                    v2 & m2 == v2,
            ;
        }
        FieldValue { mask: self.mask | other.mask, value: self.value | other.value }
    }

    /// Applies the field value to a raw register value, replacing only
    /// the masked bits.
    pub fn apply_to(self, raw: u32) -> (r: u32)
        ensures
            r == self.applied_to(raw),
    {
        (raw & !self.mask) | self.value
    }
}

/// A write of a composed field value followed by a read-back of a field
/// disjoint from it yields exactly what a read before the write yielded:
/// read-modify-write leaves unrelated bits untouched.
pub proof fn lemma_modify_preserves_unrelated(fv: FieldValue, other: Field, raw: u32)
    requires
        fv.wf(),
        other.wf(),
        fv.mask & other.mask() == 0,
    ensures
        other.read_of(fv.applied_to(raw)) == other.read_of(raw),
{
    let m = fv.mask;
    let v = fv.value;
    let s = other.shift;
    let w = other.width;
    assert((((raw & !m) | v) >> s) & (((1u64 << (w as u64)) - 1) as u32) == (raw >> s) & (((1u64
        << (w as u64)) - 1) as u32)) by (bit_vector)
        requires
            v & m == v,
            m & ((((1u64 << (w as u64)) - 1) as u32) << s) == 0,
            s + w <= 32,
            1 <= w,
    ;
}

/// A write of a field followed by a read-back of the same field yields
/// exactly the written value, whatever the register held before.
pub proof fn lemma_read_back_of_written_field(f: Field, v: u32, raw: u32)
    requires
        f.wf(),
        v & low_bits(f.width) == v,
    ensures
        f.read_of(
            (FieldValue { mask: f.mask(), value: v << f.shift }).applied_to(raw),
        ) == v,
{
    let s = f.shift;
    let w = f.width;
    assert((((raw & !((((1u64 << (w as u64)) - 1) as u32) << s)) | (v << s)) >> s) & (((1u64 << (
    w as u64)) - 1) as u32) == v) by (bit_vector)
        requires
            v & (((1u64 << (w as u64)) - 1) as u32) == v,
            s + w <= 32,
            1 <= w,
    ;
}

/// The union of a whole sequence of field values, composed left to right.
pub open spec fn combined(fvs: Seq<FieldValue>) -> FieldValue
    decreases fvs.len(),
{
    if fvs.len() == 0 {
        FieldValue { mask: 0, value: 0 }
    } else {
        let prev = combined(fvs.drop_last());
        FieldValue {
            mask: prev.mask | fvs.last().mask,
            value: prev.value | fvs.last().value,
        }
    }
}

/// The bitwise union of the individually-shifted values of a sequence of
/// field values.
pub open spec fn value_union(fvs: Seq<FieldValue>) -> u32
    decreases fvs.len(),
{
    if fvs.len() == 0 {
        0u32
    } else {
        value_union(fvs.drop_last()) | fvs.last().value
    }
}

/// Writing a sequence of composed field values together produces exactly
/// the bitwise union of each field's individually-shifted value: a plain
/// write of the composition puts `value_union(fvs)` in the register.
pub proof fn lemma_composed_write_is_union(fvs: Seq<FieldValue>)
    ensures
        combined(fvs).value == value_union(fvs),
        combined(fvs).applied_to(0) == value_union(fvs),
    decreases fvs.len(),
{
    if fvs.len() == 0 {
        assert((0u32 & !0u32) | 0u32 == 0u32) by (bit_vector);
    } else {
        lemma_composed_write_is_union(fvs.drop_last());
        let m = combined(fvs).mask;
        let v = combined(fvs).value;
        assert((0u32 & !m) | v == v) by (bit_vector);
    }
}

} // verus!
