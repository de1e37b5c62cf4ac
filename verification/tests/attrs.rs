//! Tests of the attribute table and the fixed-point formats.

use rpg_growth::attr::{attrs_new, Attr};
use rpg_growth::fixedpoint::{AttrIncrementValue, AttrValue, GrowthFactor};

#[test]
fn test_new_attrs() {
    let attrs = attrs_new(8, 2, 9, 2, 3);

    assert_eq!(*attrs.get(Attr::Pow), AttrValue::from_int(8));
    assert_eq!(*attrs.get(Attr::Spd), AttrValue::from_int(2));
    assert_eq!(*attrs.get(Attr::Vit), AttrValue::from_int(9));
    assert_eq!(*attrs.get(Attr::Int), AttrValue::from_int(2));
    assert_eq!(*attrs.get(Attr::Lck), AttrValue::from_int(3));
}

#[test]
fn test_saturating_add_caps_at_max() {
    // the maximal 8.8 value plus itself saturates at the maximum
    let max = AttrValue::from_bits(0xffff);
    assert_eq!(max.saturating_add(max), AttrValue::from_bits(0xffff));

    let near = AttrValue::from_bits(0xfffe);
    assert_eq!(near.saturating_add(AttrValue::from_bits(3)), AttrValue::from_bits(0xffff));
    assert_eq!(near.saturating_add(AttrValue::from_bits(1)), AttrValue::from_bits(0xffff));
    assert_eq!(
        AttrValue::from_bits(2).saturating_add(AttrValue::from_bits(3)),
        AttrValue::from_bits(5),
    );
}

#[test]
fn test_saturating_sub_caps_at_zero() {
    let a = AttrValue::from_bits(5);
    assert_eq!(a.saturating_sub(AttrValue::from_bits(7)), AttrValue::from_bits(0));
    assert_eq!(a.saturating_sub(AttrValue::from_bits(2)), AttrValue::from_bits(3));
}

#[test]
fn test_fixed_point_widening() {
    // widening preserves the numeric value, not the bit pattern:
    // 5.5 is 88 in 4.4 raw bits and 1408 in 8.8 raw bits
    assert_eq!(AttrIncrementValue::from_bits(88).to_attr_value(), AttrValue::from_bits(1408));
    assert_eq!(GrowthFactor::from_bits(128).to_attr_value(), AttrValue::from_bits(256));
    assert_eq!(AttrValue::from_bits(1408).floor(), 5);
}

#[test]
fn test_mul_and_div_truncate() {
    // 1.5 * 1.5 = 2.25: bits 384 * 384 -> 576
    let a = AttrValue::from_bits(384);
    assert_eq!(a.mul_truncating(a), AttrValue::from_bits(576));
    // 2.25 / 2 = 1.125: bits 576 / 512 in the 8.8 domain -> 288
    assert_eq!(
        AttrValue::from_bits(576).div_truncating(AttrValue::from_int(2)),
        AttrValue::from_bits(288),
    );
    assert_eq!(AttrValue::from_bits(576).floor(), 2);
}
