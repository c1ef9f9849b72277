//! Text operations, held against those of the standard library.

use llm_connector::text::{
    contains_text, decimal_text, drop_trailing, ends_in_text, find_text, same_text, trim_text,
    white_space,
};

#[test]
fn numbers_are_written_in_decimal() {
    for n in [0, 1, 9, 10, 11, 99, 100, 1024, 4294967295, u64::MAX] {
        assert_eq!(decimal_text(n), format!("{}", n));
    }
}

#[test]
fn white_space_is_that_of_unicode() {
    for code in 0..=0x10FFFFu32 {
        if let Some(c) = char::from_u32(code) {
            assert_eq!(white_space(c), c.is_whitespace(), "{:x}", code);
        }
    }
}

#[test]
fn texts_are_trimmed() {
    for text in ["", " ", "a", " a b ", "\u{3000}\u{e9}\n", "\t\r\n", "a\u{200b}"] {
        assert_eq!(trim_text(text), text.trim());
    }
}

#[test]
fn trailing_characters_are_dropped() {
    for text in ["", "/", "a/", "a//", "/a", "a/b/", "\u{e9}//"] {
        assert_eq!(drop_trailing(text, '/'), text.trim_end_matches('/'));
    }
}

#[test]
fn texts_are_found_by_character() {
    let cases = [
        ("", ""), ("a", ""), ("", "a"), ("abcabc", "bc"), ("aab", "ab"), ("abc", "abd"),
        ("\u{e9}\u{e9}x", "x"), ("abc", "abcd"), ("xyz", "z"),
    ];
    for (whole, part) in cases {
        let expected = whole.find(part).map(|at| whole[..at].chars().count());
        assert_eq!(find_text(whole, part), expected);
        assert_eq!(contains_text(whole, part), whole.contains(part));
        assert_eq!(ends_in_text(whole, part), whole.ends_with(part));
        assert_eq!(same_text(whole, part), whole == part);
    }
}
