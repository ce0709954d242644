use dev_ticker::text::{integer_text, numeral, same_text};

#[test]
fn same_text_compares_letter_for_letter() {
    assert!(same_text("ETH", "ETH"));
    assert!(same_text("", ""));
    assert!(!same_text("ETH", "eth"));
    assert!(!same_text("ETH", "ETH "));
    assert!(!same_text("ETH", ""));
    assert!(same_text("zürich", "zürich"));
}

#[test]
fn numerals_of_natural_numbers() {
    assert_eq!(numeral(0), "0");
    assert_eq!(numeral(9), "9");
    assert_eq!(numeral(10), "10");
    assert_eq!(numeral(1234567890), "1234567890");
    assert_eq!(numeral(100), "100");
    assert_eq!(numeral(u128::MAX), u128::MAX.to_string());
}

#[test]
fn numerals_of_integers() {
    assert_eq!(integer_text(0), "0");
    assert_eq!(integer_text(7), "7");
    assert_eq!(integer_text(-7), "-7");
    assert_eq!(integer_text(1_600_000_000_123), "1600000000123");
    assert_eq!(integer_text(-1_000), "-1000");
    assert_eq!(integer_text(i64::MAX), "9223372036854775807");
    assert_eq!(integer_text(i64::MIN), "-9223372036854775808");
}
