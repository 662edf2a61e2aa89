use obsidian_sync::text::{
    contains_str, dec_string, is_blank, join_strings, parse_u32, parse_u64, repeat_str, split_lines, split_once_str,
    split_tokens, starts_with_str, str_eq, trim_end_slashes_str, trim_str, Sep,
};

#[test]
fn parse_and_format_numbers() {
    assert_eq!(parse_u64("42"), Some(42));
    assert_eq!(parse_u64("+7"), Some(7));
    assert_eq!(parse_u64("-7"), None);
    assert_eq!(parse_u64(""), None);
    assert_eq!(parse_u64("18446744073709551616"), None);
    assert_eq!(parse_u32("4294967295"), Some(4294967295));
    assert_eq!(parse_u32("4294967296"), None);
    assert_eq!(dec_string(0), "0");
    assert_eq!(dec_string(1234567890), "1234567890");
}

#[test]
fn lines_and_tokens() {
    assert_eq!(split_lines("a\r\nb\n\nc\r"), vec!["a", "b", "", "c\r"]);
    assert_eq!(split_lines(""), Vec::<String>::new());
    assert_eq!(split_tokens("  3\t 5 \n", Sep::Whitespace), vec!["3", "5"]);
    assert_eq!(split_tokens("a\0\0b\0", Sep::Char('\0')), vec!["a", "b"]);
    assert_eq!(trim_str("  x y \u{3000}"), "x y");
}

#[test]
fn decimal_text_reads_back() {
    for n in [0u64, 1, 9, 10, 99, 100, 4294967296, u64::MAX] {
        assert_eq!(parse_u64(&dec_string(n)), Some(n));
    }
    assert_eq!(obsidian_sync::text::i64_string(-42), "-42");
    assert_eq!(obsidian_sync::text::i64_string(i64::MIN), "-9223372036854775808");
    assert_eq!(obsidian_sync::text::parse_usize("80"), Some(80));
}

#[test]
fn searching_and_joining() {
    assert!(contains_str("Vault backup", "backup"));
    assert!(contains_str("abc", ""));
    assert!(!contains_str("ab", "abc"));
    assert!(starts_with_str("/storage/emulated/0/x", "/storage/emulated/0/"));
    assert!(!starts_with_str("/storage", "/storage/emulated/0/"));
    assert!(is_blank(" \t\n"));
    assert!(!is_blank(" M a"));
    assert!(str_eq("a", "a"));
    assert!(!str_eq("a", "b"));
    assert_eq!(split_once_str("01/02|msg|x", '|'), Some(("01/02".to_string(), "msg|x".to_string())));
    assert_eq!(split_once_str("none", '|'), None);
    assert_eq!(join_strings(&vec!["a".to_string(), "b".to_string()], ", "), "a, b");
    assert_eq!(join_strings(&vec![], ", "), "");
    assert_eq!(repeat_str("ab", 3), "ababab");
    assert_eq!(trim_end_slashes_str("/v/x//"), "/v/x");
    assert_eq!(trim_end_slashes_str("/"), "");
}
