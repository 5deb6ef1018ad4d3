use spotifyimport::text::{push_decimal, push_signed_decimal, str_ends_with};

fn unsigned(n: u64) -> String {
    let mut buf = String::new();
    push_decimal(&mut buf, n);
    buf
}

fn signed(n: i64) -> String {
    let mut buf = String::new();
    push_signed_decimal(&mut buf, n);
    buf
}

#[test]
fn decimal_of_small_numbers() {
    assert_eq!(unsigned(0), "0");
    assert_eq!(unsigned(7), "7");
    assert_eq!(unsigned(10), "10");
    assert_eq!(unsigned(404), "404");
}

#[test]
fn decimal_of_all_digits() {
    assert_eq!(unsigned(1234567890), "1234567890");
}

#[test]
fn decimal_of_the_largest_number() {
    assert_eq!(unsigned(u64::MAX), "18446744073709551615");
}

#[test]
fn decimal_agrees_with_std() {
    for n in [0u64, 1, 9, 10, 11, 99, 100, 101, 999, 1000, 65535, 4294967295] {
        assert_eq!(unsigned(n), n.to_string());
    }
}

#[test]
fn decimal_appends() {
    let mut buf = String::from("n=");
    push_decimal(&mut buf, 42);
    assert_eq!(buf, "n=42");
}

#[test]
fn signed_decimal_of_negative_numbers() {
    assert_eq!(signed(-1), "-1");
    assert_eq!(signed(-10), "-10");
    assert_eq!(signed(i64::MIN), "-9223372036854775808");
}

#[test]
fn signed_decimal_of_other_numbers() {
    assert_eq!(signed(0), "0");
    assert_eq!(signed(1600000000), "1600000000");
    assert_eq!(signed(i64::MAX), "9223372036854775807");
}

#[test]
fn ends_with_a_suffix() {
    assert!(str_ends_with("abc", "bc"));
    assert!(str_ends_with("abc", "abc"));
    assert!(str_ends_with("abc", ""));
    assert!(str_ends_with("", ""));
}

#[test]
fn ends_with_something_else() {
    assert!(!str_ends_with("abc", "ab"));
    assert!(!str_ends_with("bc", "abc"));
    assert!(!str_ends_with("", "a"));
    assert!(!str_ends_with("abc", "bd"));
}

#[test]
fn ends_with_by_characters() {
    assert!(str_ends_with("naïve", "ïve"));
    assert!(!str_ends_with("naïve", "ive"));
}
