use comport::text::{decimal_string, same_text};

#[test]
fn single_digits_are_written() {
    assert_eq!(decimal_string(0), "0");
    assert_eq!(decimal_string(1), "1");
    assert_eq!(decimal_string(2), "2");
    assert_eq!(decimal_string(3), "3");
    assert_eq!(decimal_string(4), "4");
    assert_eq!(decimal_string(5), "5");
    assert_eq!(decimal_string(6), "6");
    assert_eq!(decimal_string(7), "7");
    assert_eq!(decimal_string(8), "8");
    assert_eq!(decimal_string(9), "9");
}

#[test]
fn longer_numbers_are_written_most_significant_digit_first() {
    assert_eq!(decimal_string(10), "10");
    assert_eq!(decimal_string(99), "99");
    assert_eq!(decimal_string(100), "100");
    assert_eq!(decimal_string(1027), "1027");
    assert_eq!(decimal_string(24577), "24577");
    assert_eq!(decimal_string(115200), "115200");
    assert_eq!(decimal_string(1234567890), "1234567890");
}

#[test]
fn the_largest_number_is_written() {
    assert_eq!(decimal_string(u64::MAX), "18446744073709551615");
    assert_eq!(decimal_string(u32::MAX as u64), "4294967295");
}

#[test]
fn decimal_agrees_with_the_standard_library() {
    let mut n: u64 = 1;
    for _ in 0..40 {
        assert_eq!(decimal_string(n), n.to_string());
        assert_eq!(decimal_string(n - 1), (n - 1).to_string());
        n = n.wrapping_mul(3).wrapping_add(7);
    }
}

#[test]
fn equal_texts_are_the_same() {
    assert!(same_text("", ""));
    assert!(same_text("COM3", "COM3"));
    assert!(same_text("/dev/ttyUSB0", "/dev/ttyUSB0"));
    assert!(same_text("porté", "porté"));
}

#[test]
fn different_texts_are_not_the_same() {
    assert!(!same_text("COM3", "COM4"));
    assert!(!same_text("COM3", "com3"));
    assert!(!same_text("COM3", "COM"));
    assert!(!same_text("COM", "COM3"));
    assert!(!same_text("", "COM3"));
    assert!(!same_text("COM3", ""));
    assert!(!same_text("porté", "porte"));
    assert!(!same_text("é", "è"));
}
