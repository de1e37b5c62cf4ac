//! Tests of the bit-range helpers.

use rpg_growth::bit::{extract, is_powerof2, mask, range};

#[test]
fn mask_test() {
    assert_eq!(mask(0), 0);
    assert_eq!(mask(1), 1);
    assert_eq!(mask(8), 0xff);
    assert_eq!(mask(31), 0x7fffffff);
    assert_eq!(mask(32), 0xffffffff);
}

#[test]
fn extract_test() {
    assert_eq!(extract(0x12345678, 0, 16), 0x00005678);
    assert_eq!(extract(0x12345678, 16, 32), 0x12340000);
}

#[test]
fn range_test() {
    assert_eq!(range(0x12345678, 0, 16), 0x5678);
    assert_eq!(range(0x12345678, 16, 32), 0x1234);
}

#[test]
fn is_powerof2_test() {
    assert_eq!(is_powerof2(0), false);
    assert_eq!(is_powerof2(1), true);
    assert_eq!(is_powerof2(2), true);
    assert_eq!(is_powerof2(3), false);
    assert_eq!(is_powerof2(u8::MAX as u16), false);
}
