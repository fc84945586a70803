use foxess::text::{
    i64_to_decimal, insert_space_before_plus, parse_u8, str_eq, to_hex_lower, trim_end_matches_char,
    truncate_chars, u64_to_decimal, IntParseError,
};

#[test]
fn decimal_rendering_matches_format() {
    assert_eq!(u64_to_decimal(0), "0");
    assert_eq!(u64_to_decimal(7), "7");
    assert_eq!(u64_to_decimal(40256), "40256");
    assert_eq!(u64_to_decimal(u64::MAX), u64::MAX.to_string());
    assert_eq!(i64_to_decimal(1_700_000_000_000), "1700000000000");
    assert_eq!(i64_to_decimal(-42), "-42");
    assert_eq!(i64_to_decimal(i64::MIN), i64::MIN.to_string());
    assert_eq!(i64_to_decimal(0), "0");
}

#[test]
fn hex_rendering_is_two_lowercase_digits_per_byte() {
    assert_eq!(to_hex_lower(&[]), "");
    assert_eq!(to_hex_lower(&[0x00, 0x0f, 0xab, 0xff, 0x10]), "000fabff10");
}

#[test]
fn string_equality() {
    assert!(str_eq("abc", "abc"));
    assert!(!str_eq("abc", "abd"));
    assert!(!str_eq("abc", "ab"));
    assert!(str_eq("", ""));
}

#[test]
fn trailing_slashes_are_trimmed() {
    assert_eq!(trim_end_matches_char("https://www.foxesscloud.com///", '/'), "https://www.foxesscloud.com");
    assert_eq!(trim_end_matches_char("http://127.0.0.1:8080", '/'), "http://127.0.0.1:8080");
    assert_eq!(trim_end_matches_char("///", '/'), "");
    assert_eq!(trim_end_matches_char("", '/'), "");
}

#[test]
fn truncation_counts_characters() {
    assert_eq!(truncate_chars("oops", 512), "oops");
    assert_eq!(truncate_chars("abcdef", 3), "abc");
    assert_eq!(truncate_chars("ääää", 2), "ää");
    let long = "x".repeat(600);
    assert_eq!(truncate_chars(&long, 512).chars().count(), 512);
}

#[test]
fn space_is_inserted_before_plus() {
    assert_eq!(insert_space_before_plus("2025-12-03 00:08:51 CET+0100"), "2025-12-03 00:08:51 CET +0100");
    assert_eq!(insert_space_before_plus("a+b+"), "a +b +");
    assert_eq!(insert_space_before_plus("no sign"), "no sign");
    assert_eq!(insert_space_before_plus(""), "");
}

#[test]
fn u8_parsing_follows_the_standard_library() {
    for s in ["0", "7", "55", "007", "+5", "255", "256", "", "+", "-", "-0", "25x", "x", "2555", "1000", " 5", "५"] {
        let expected = s.parse::<u8>();
        let got = parse_u8(s);
        match (expected, got) {
            (Ok(a), Ok(b)) => assert_eq!(a, b, "{s:?}"),
            (Err(e), Err(k)) => assert_eq!(e.to_string(), k.message(), "{s:?}"),
            (a, b) => panic!("mismatch on {s:?}: {a:?} vs {b:?}"),
        }
    }
    assert_eq!(parse_u8(""), Err(IntParseError::Empty));
    assert_eq!(parse_u8("+"), Err(IntParseError::InvalidDigit));
    assert_eq!(parse_u8("300"), Err(IntParseError::PosOverflow));
    assert_eq!(parse_u8("999x"), Err(IntParseError::PosOverflow));
}
