//! The typed register model: field composition and read-modify-write.

use nucleus::bitfield::Field;
use nucleus::registers::ReadOnly;
use nucleus::registers::ReadWrite;
use nucleus::registers::WriteOnly;

#[test]
fn field_mask_and_read() {
    let f = Field::new(4, 3);
    assert_eq!(f.mask_value(), 0x70);
    assert_eq!(f.read(0xFF), 0x7);
    assert_eq!(f.read(0x50), 0x5);
    assert!(f.is_set(0x10));
    assert!(!f.is_set(0x8F));
}

#[test]
fn composed_write_is_union_of_shifted_values() {
    let a = Field::new(0, 2).val(0b11);
    let b = Field::new(4, 2).val(0b10);
    assert_eq!(a.value, 0b11);
    assert_eq!(b.value, 0b10_0000);
    let c = a.combine(b);
    assert_eq!(c.value, 0b11 | 0b10_0000);
    assert_eq!(c.mask, 0b11 | 0b11_0000);
    // a plain write of the composition puts exactly the union in the register
    let mut r = ReadWrite::new(0xFFFF_FFFF);
    r.write(c);
    assert_eq!(r.get(), 0b10_0011);
}

#[test]
fn composition_order_does_not_matter() {
    let a = Field::new(1, 2).val(0b01);
    let b = Field::new(14, 1).val(1);
    let ab = a.combine(b);
    let ba = b.combine(a);
    assert_eq!(ab.mask, ba.mask);
    assert_eq!(ab.value, ba.value);
}

#[test]
fn modify_preserves_unrelated_bits() {
    let mut r = ReadWrite::new(0xDEAD_BEEF);
    let touched = Field::new(8, 4);
    let other = Field::new(16, 8);
    let other_before = r.read(other);
    r.modify(touched.val(0x5));
    assert_eq!(r.get(), 0xDEAD_B5EF);
    // read-back of an untouched field sees the pre-write value
    assert_eq!(r.read(other), other_before);
    assert_eq!(r.read(other), 0xAD);
    assert_eq!(r.read(touched), 0x5);
}

#[test]
fn widest_field_spans_the_register() {
    let f = Field::new(0, 32);
    assert_eq!(f.mask_value(), 0xFFFF_FFFF);
    assert_eq!(f.val(0x1234_5678).value, 0x1234_5678);
    assert_eq!(f.read(0x8765_4321), 0x8765_4321);
}

#[test]
fn apply_to_zero_yields_the_shifted_value() {
    let fv = Field::new(12, 3).val(0b010);
    assert_eq!(fv.apply_to(0), 0x2000);
}

#[test]
fn write_only_register_latches_writes() {
    let mut w = WriteOnly::new(0);
    w.write(Field::new(0, 16).val(270));
    assert_eq!(w.device_value(), 270);
    w.set(7);
    assert_eq!(w.device_value(), 7);
}

#[test]
fn read_only_register_reflects_the_device() {
    let mut r = ReadOnly::new(0);
    assert!(!r.is_set(Field::new(0, 1)));
    r.device_set(0x61);
    assert_eq!(r.get(), 0x61);
    assert!(r.is_set(Field::new(0, 1)));
    assert_eq!(r.read(Field::new(5, 1)), 1);
}
