use frogtable::text::{contains, i128_to_string, u128_to_string};

#[test]
fn naturals_are_written_in_decimal() {
    assert_eq!(u128_to_string(0), "0");
    assert_eq!(u128_to_string(7), "7");
    assert_eq!(u128_to_string(10), "10");
    assert_eq!(u128_to_string(100), "100");
    assert_eq!(u128_to_string(1234567890), "1234567890");
    assert_eq!(u128_to_string(u128::MAX), "340282366920938463463374607431768211455");
}

#[test]
fn integers_are_written_with_their_sign() {
    assert_eq!(i128_to_string(0), "0");
    assert_eq!(i128_to_string(-1), "-1");
    assert_eq!(i128_to_string(42), "42");
    assert_eq!(i128_to_string(-9000), "-9000");
    assert_eq!(i128_to_string(i128::MAX), "170141183460469231731687303715884105727");
    assert_eq!(i128_to_string(i128::MIN), "-170141183460469231731687303715884105728");
}

#[test]
fn decimal_text_agrees_with_the_standard_library() {
    for n in [0u128, 9, 10, 11, 99, 101, 65535, 4294967296, 18446744073709551615] {
        assert_eq!(u128_to_string(n), n.to_string());
    }
    for i in [-1i128, -10, -99, -4294967296, 1, 10, 99] {
        assert_eq!(i128_to_string(i), i.to_string());
    }
}

#[test]
fn substring_is_found_anywhere() {
    assert!(contains("SELECT * FROM events", "events"));
    assert!(contains("SELECT * FROM events", "SELECT"));
    assert!(contains("SELECT * FROM events", " * "));
    assert!(contains("events", "events"));
    assert!(contains("aab", "ab"));
    assert!(contains("ababac", "abac"));
}

#[test]
fn empty_needle_is_found_everywhere() {
    assert!(contains("abc", ""));
    assert!(contains("", ""));
}

#[test]
fn absent_or_longer_needle_is_not_found() {
    assert!(!contains("SELECT * FROM events", "event_log"));
    assert!(!contains("SELECT * FROM events", "Events"));
    assert!(!contains("abc", "abcd"));
    assert!(!contains("", "a"));
    assert!(!contains("ab ab", "aba"));
}

#[test]
fn substring_works_on_characters_beyond_ascii() {
    assert!(contains("SELECT * FROM caf\u{e9}s", "caf\u{e9}"));
    assert!(contains("\u{65e5}\u{672c}\u{8a9e}", "\u{672c}"));
    assert!(!contains("\u{65e5}\u{672c}\u{8a9e}", "\u{672b}"));
}

#[test]
fn substring_agrees_with_the_standard_library() {
    let texts = ["", "a", "ab", "ba", "aba", "SELECT * FROM t", "t", " ", "FROM", "xyz"];
    for haystack in texts {
        for needle in texts {
            assert_eq!(contains(haystack, needle), haystack.contains(needle), "{haystack:?} {needle:?}");
        }
    }
}
