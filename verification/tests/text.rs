use amux::scan::{digits, holds_text, read_number, same_ignoring_case, split_once, words};
use amux::text::{decimal, integer, padded, starts_with, text_precedes, trim};

#[test]
fn numbers_are_written_and_read_back() {
    assert_eq!(decimal(0), "0");
    assert_eq!(decimal(u64::MAX), "18446744073709551615");
    assert_eq!(integer(-7), "-7");
    assert_eq!(integer(i64::MIN), "-9223372036854775808");
    assert_eq!(padded(7, 3), "007");
    assert_eq!(padded(1234, 3), "1234");
    for n in [0, 9, 10, 4711, u64::MAX] {
        assert_eq!(read_number(&decimal(n), u64::MAX), Some(n));
    }
    assert_eq!(read_number("256", 255), None);
    assert_eq!(read_number("255", 255), Some(255));
    assert_eq!(read_number("1a", 255), None);
}

#[test]
fn texts_are_taken_apart() {
    assert_eq!(words("  a bc\u{2003}d "), vec!["a", "bc", "d"]);
    assert_eq!(words(" \t"), Vec::<String>::new());
    assert_eq!(
        split_once("a=b=c", "="),
        Some(("a".to_string(), "b=c".to_string()))
    );
    assert_eq!(split_once("abc", "="), None);
    assert_eq!(
        split_once("abc", ""),
        Some(("".to_string(), "abc".to_string()))
    );
    assert!(holds_text("xyz", "yz"));
    assert!(!holds_text("xyz", "zy"));
    assert_eq!(digits("~72,908"), "72908");
    assert_eq!(trim("\n a b \t"), "a b");
}

#[test]
fn texts_are_compared() {
    assert!(same_ignoring_case("UnBounded", "unbounded"));
    assert!(!same_ignoring_case("unbounded!", "unbounded"));
    assert!(!same_ignoring_case("\u{c9}", "\u{e9}"));
    assert!(starts_with("fs/read", "fs/"));
    assert!(!starts_with("fs", "fs/"));
    assert!(text_precedes("a", "ab"));
    assert!(text_precedes("Z", "a"));
    assert!(!text_precedes("b", "b"));
}
