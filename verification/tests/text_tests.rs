use server::text::{
    format_i64, format_u64, is_blank, joined2, parse_i32, parse_i64, parse_u16,
    parse_usize,
};

const SAMPLES: &[&str] = &[
    "", "0", "00", "8080", "+8080", "-8080", "+", "-", "65535", "65536", "-0", "12a", " 1", "1 ",
    "2147483647", "2147483648", "-2147483648", "-2147483649", "9223372036854775807",
    "9223372036854775808", "-9223372036854775808", "-9223372036854775809", "+-1", "--1",
    "18446744073709551615", "18446744073709551616", "٣", "00000000000000000000000000042",
];

#[test]
fn parse_u16_agrees_with_std() {
    for s in SAMPLES {
        assert_eq!(parse_u16(s), s.parse::<u16>().ok(), "input {s:?}");
    }
}

#[test]
fn parse_usize_agrees_with_std() {
    for s in SAMPLES {
        assert_eq!(parse_usize(s), s.parse::<usize>().ok(), "input {s:?}");
    }
}

#[test]
fn parse_i32_agrees_with_std() {
    for s in SAMPLES {
        assert_eq!(parse_i32(s), s.parse::<i32>().ok(), "input {s:?}");
    }
}

#[test]
fn parse_i64_agrees_with_std() {
    for s in SAMPLES {
        assert_eq!(parse_i64(s), s.parse::<i64>().ok(), "input {s:?}");
    }
}

#[test]
fn parse_exact_values() {
    assert_eq!(parse_u16("8080"), Some(8080));
    assert_eq!(parse_u16("+80"), Some(80));
    assert_eq!(parse_u16("65536"), None);
    assert_eq!(parse_i32("-2147483648"), Some(i32::MIN));
    assert_eq!(parse_i64("-9223372036854775808"), Some(i64::MIN));
    assert_eq!(parse_i64("1700000000"), Some(1_700_000_000));
    assert_eq!(parse_usize("512"), Some(512));
}

#[test]
fn format_agrees_with_std() {
    for n in [0i64, 1, 9, 10, 42, -1, -42, 1_000_000, i64::MAX, i64::MIN] {
        assert_eq!(format_i64(n), n.to_string());
    }
    for n in [0u64, 7, 10, 99, 100, u64::MAX] {
        assert_eq!(format_u64(n), n.to_string());
    }
    assert_eq!(format_i64(-42), "-42");
}

#[test]
fn blank_matches_trim() {
    for s in ["", " ", "\t\n\r", "\u{3000}", "\u{a0} \u{2009}", " a ", "rust", "\u{200b}"] {
        assert_eq!(is_blank(s), s.trim().is_empty(), "input {s:?}");
    }
    assert!(is_blank("  \t "));
    assert!(!is_blank(" q "));
}

#[test]
fn joining_text() {
    assert_eq!(joined2("ab", "cd"), "abcd");
}
