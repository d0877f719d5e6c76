use bot_terminal::text::{
    chars_of, decimal_string, is_whitespace, parse_u64, parse_usize, same_text,
    signed_decimal_string, trim, truncate_text,
};

#[test]
fn trim_removes_ascii_whitespace_on_both_sides() {
    assert_eq!(trim("  a b \t\n"), "a b");
    assert_eq!(trim(""), "");
    assert_eq!(trim(" \t\r\n "), "");
    assert_eq!(trim("x"), "x");
}

#[test]
fn trim_removes_unicode_whitespace() {
    assert_eq!(trim("\u{3000}x\u{A0}"), "x");
    assert_eq!(trim("\u{2028}\u{85}y z\u{200A}"), "y z");
    // U+200B (zero width space) is no whitespace.
    assert_eq!(trim("\u{200B}q"), "\u{200B}q");
}

#[test]
fn whitespace_matches_std() {
    for u in 0u32..0x3100 {
        if let Some(c) = char::from_u32(u) {
            assert_eq!(is_whitespace(c), c.is_whitespace(), "code point {u:#x}");
        }
    }
}

#[test]
fn chars_of_keeps_every_character() {
    assert_eq!(chars_of("añb€"), vec!['a', 'ñ', 'b', '€']);
}

#[test]
fn same_text_compares_characters() {
    assert!(same_text("/run", "/run"));
    assert!(!same_text("/run", "/runx"));
}

#[test]
fn parse_u64_accepts_what_std_accepts() {
    for s in [
        "0", "7", "+5", "007", "18446744073709551615", "18446744073709551616", "-5", "+", "-",
        "", "12a", " 1", "1 ", "++1", "+-1", "١",
    ] {
        assert_eq!(parse_u64(s), s.parse::<u64>().ok(), "input {s:?}");
    }
}

#[test]
fn parse_u64_exact_values() {
    assert_eq!(parse_u64("+5"), Some(5));
    assert_eq!(parse_u64("18446744073709551615"), Some(u64::MAX));
    assert_eq!(parse_u64("18446744073709551616"), None);
    assert_eq!(parse_u64("-5"), None);
}

#[test]
fn parse_usize_accepts_what_std_accepts() {
    for s in ["0", "3000", "+12", "abc", "", "99999999999999999999999"] {
        assert_eq!(parse_usize(s), s.parse::<usize>().ok(), "input {s:?}");
    }
}

#[test]
fn decimal_strings_match_to_string() {
    for n in [0u64, 1, 9, 10, 99, 100, 1234567890, u64::MAX] {
        assert_eq!(decimal_string(n), n.to_string());
    }
    for x in [0i32, 5, -1, -42, i32::MIN, i32::MAX] {
        assert_eq!(signed_decimal_string(x), x.to_string());
    }
}

#[test]
fn decimal_reads_back() {
    for n in [0u64, 20, 3000, u64::MAX] {
        assert_eq!(parse_u64(&trim(&decimal_string(n))), Some(n));
    }
}

#[test]
fn truncation_keeps_short_text() {
    assert_eq!(truncate_text("hello", 5), "hello");
    assert_eq!(truncate_text("", 0), "");
}

#[test]
fn truncation_cuts_long_text() {
    assert_eq!(truncate_text("hello", 3), "hel\n...[truncated]");
    assert_eq!(truncate_text("héllo wörld", 2), "hé\n...[truncated]");
    assert_eq!(truncate_text("ab", 0), "\n...[truncated]");
    let long = "x".repeat(100);
    let cut = truncate_text(&long, 10);
    assert_eq!(cut.chars().count(), 10 + 15);
    assert!(cut.starts_with(&"x".repeat(10)));
}
