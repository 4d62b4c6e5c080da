use boyohboy::bits::{clear_bit, get_bit, get_bits, get_lsb, set_bit, test_bit};

#[test]
fn test_get_msb() {
    assert_eq!(get_lsb(0b00110010), 0b00000010);
}

#[test]
fn test_clear_bit() {
    assert_eq!(clear_bit(0b00110010, 4), 0b00100010);
}

#[test]
fn bits_test_get_bits() {
    assert_eq!(get_bits(0b00110010, 5, 1), 0b11001);
}

#[test]
fn instructions_test_get_bits() {
    assert_eq!(get_bits(0b00110010, 5, 1), 0b11001);
}

#[test]
fn test_set_bit() {
    assert_eq!(set_bit(0b00100010, 4), 0b00110010);
}

#[test]
fn test_get_lsb_zero() {
    assert_eq!(get_lsb(0), 0);
}

#[test]
fn test_get_bit_and_test_bit() {
    assert_eq!(get_bit(0b1000_0000, 7), 1);
    assert_eq!(get_bit(0b1000_0000, 6), 0);
    assert!(test_bit(0b0001_0000, 4));
    assert!(!test_bit(0b0001_0000, 3));
}
