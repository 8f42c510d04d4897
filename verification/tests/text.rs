use witchops::decimal::{read_u64, write_i64, write_u64};
use witchops::text::{blank, chars_of, find_char, has_prefix, is_white_space, same_text, trim_bounds};

#[test]
fn white_space_is_that_of_unicode() {
    for n in 0..=0x10ffffu32 {
        if let Some(c) = char::from_u32(n) {
            assert_eq!(is_white_space(c), c.is_whitespace(), "U+{n:04X}");
        }
    }
}

#[test]
fn trimming_agrees_with_the_standard_library() {
    for s in ["", " ", "  a b\t", "\u{3000}版本\u{2028}", "x", "\u{85}\u{a0}", " v1.0\n"] {
        let v = chars_of(s);
        let (lo, hi) = trim_bounds(&v);
        let trimmed: String = v[lo..hi].iter().collect();
        assert_eq!(trimmed, s.trim());
        assert_eq!(blank(s), s.trim().is_empty());
    }
}

#[test]
fn decimal_notation_is_exact() {
    assert_eq!(write_u64(0), "0");
    assert_eq!(write_u64(7), "7");
    assert_eq!(write_u64(10), "10");
    assert_eq!(write_u64(u64::MAX), "18446744073709551615");
    assert_eq!(write_i64(0), "0");
    assert_eq!(write_i64(-1), "-1");
    assert_eq!(write_i64(-120), "-120");
    assert_eq!(write_i64(i64::MIN), "-9223372036854775808");
    assert_eq!(write_i64(i64::MAX), "9223372036854775807");
}

#[test]
fn unsigned_numbers_are_read_as_the_standard_library_reads_them() {
    let cases = [
        "", "+", "-", "0", "007", "+5", "++5", "-5", "5 ", " 5", "1_000", "abc", "12a", "１",
        "18446744073709551615", "18446744073709551616", "99999999999999999999999",
        "000000000000000000000000000001", "+18446744073709551615",
    ];
    for s in cases {
        let v = chars_of(s);
        assert_eq!(read_u64(&v, 0, v.len()), s.parse::<u64>().ok(), "{s:?}");
    }
}

#[test]
fn written_numbers_are_read_back() {
    for n in [0u64, 1, 9, 10, 99, 100, 12345, u64::MAX] {
        let v = chars_of(&write_u64(n));
        assert_eq!(read_u64(&v, 0, v.len()), Some(n));
    }
}

#[test]
fn text_comparisons() {
    assert!(same_text("维", "维"));
    assert!(!same_text("a", "b"));
    assert!(has_prefix("https://x/", "https://"));
    assert!(has_prefix("abc", ""));
    assert!(!has_prefix("ab", "abc"));
    assert!(!has_prefix("xbc", "ab"));
    let v = chars_of("1.2.3");
    assert_eq!(find_char(&v, 0, 5, '.'), 1);
    assert_eq!(find_char(&v, 2, 5, '.'), 3);
    assert_eq!(find_char(&v, 4, 5, '.'), 5);
}
