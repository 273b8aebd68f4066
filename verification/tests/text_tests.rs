use ilert::text::i64_to_string;
use ilert::text::str_eq;
use ilert::text::str_eq_ignore_ascii_case;
use ilert::text::u64_to_string;

#[test]
fn decimal_rendering_of_unsigned_values() {
    assert_eq!(u64_to_string(0), "0");
    assert_eq!(u64_to_string(9), "9");
    assert_eq!(u64_to_string(10), "10");
    assert_eq!(u64_to_string(1234567890), "1234567890");
    assert_eq!(u64_to_string(u64::MAX), "18446744073709551615");
}

#[test]
fn decimal_rendering_of_signed_values() {
    assert_eq!(i64_to_string(0), "0");
    assert_eq!(i64_to_string(42), "42");
    assert_eq!(i64_to_string(-1), "-1");
    assert_eq!(i64_to_string(-9007), "-9007");
    assert_eq!(i64_to_string(i64::MAX), "9223372036854775807");
    assert_eq!(i64_to_string(i64::MIN), "-9223372036854775808");
}

#[test]
fn string_equality_is_exact() {
    assert!(str_eq("", ""));
    assert!(str_eq("abc", "abc"));
    assert!(!str_eq("abc", "abd"));
    assert!(!str_eq("abc", "ab"));
    assert!(!str_eq("ALERT", "alert"));
    assert!(str_eq("sch\u{f6}n", "sch\u{f6}n"));
}

#[test]
fn case_insensitive_equality_folds_ascii_only() {
    assert!(str_eq_ignore_ascii_case("Content-Type", "content-type"));
    assert!(str_eq_ignore_ascii_case("ACCEPT", "accept"));
    assert!(!str_eq_ignore_ascii_case("accept", "accepts"));
    assert!(!str_eq_ignore_ascii_case("a", "b"));
}
