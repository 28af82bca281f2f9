use traggo_mcp::text::{decimal_string, parse_u64, str_is_blank};

#[test]
fn renders_decimals() {
    assert_eq!(decimal_string(0), "0");
    assert_eq!(decimal_string(7), "7");
    assert_eq!(decimal_string(1234), "1234");
    assert_eq!(decimal_string(u64::MAX), "18446744073709551615");
}

#[test]
fn parses_unsigned_integers_like_std() {
    for text in ["0", "+0", "42", "+42", "007", "18446744073709551615", "", "+", "-1", "1 ", " 1", "1.0", "18446744073709551616", "99999999999999999999999"] {
        assert_eq!(parse_u64(text), text.parse::<u64>().ok(), "{text:?}");
    }
}

#[test]
fn blank_means_only_whitespace() {
    assert!(str_is_blank(""));
    assert!(str_is_blank(" \u{85}\u{1680}\u{2028}\u{205f}"));
    assert!(!str_is_blank(" a "));
    for c in ['\u{9}', '\u{a}', '\u{b}', '\u{c}', '\u{d}', ' ', '\u{85}', '\u{a0}', '\u{1680}', '\u{2000}', '\u{200a}', '\u{2028}', '\u{2029}', '\u{202f}', '\u{205f}', '\u{3000}', 'x', '\u{180e}', '\u{200b}', '\u{feff}'] {
        assert_eq!(str_is_blank(&c.to_string()), c.is_whitespace(), "{c:?}");
    }
}
