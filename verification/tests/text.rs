use rinha::text::{decimal_text, parse_u16, text_equals};

#[test]
fn decimal_text_renders_numbers() {
    assert_eq!(decimal_text(0), "0");
    assert_eq!(decimal_text(7), "7");
    assert_eq!(decimal_text(10), "10");
    assert_eq!(decimal_text(65535), "65535");
    assert_eq!(decimal_text(u64::MAX), u64::MAX.to_string());
}

#[test]
fn parse_u16_accepts_what_std_accepts() {
    for text in ["80", "+80", "0080", "65535", "0", "+0", "65536", "", "+", "-", "-1", " 80", "80 ", "8a", "99999999999", "++1", "1_000"] {
        assert_eq!(parse_u16(text), text.parse::<u16>().ok(), "text {:?}", text);
    }
    assert_eq!(parse_u16("3000"), Some(3000));
    assert_eq!(parse_u16("65536"), None);
}

#[test]
fn parse_u16_reads_back_decimal_text() {
    for n in [0u16, 1, 9, 10, 99, 100, 5432, 6379, 65535] {
        assert_eq!(parse_u16(&decimal_text(n as u64)), Some(n));
    }
}

#[test]
fn text_equals_compares_texts() {
    assert!(text_equals("default", "default"));
    assert!(!text_equals("default", "fallback"));
    assert!(!text_equals("default", "defaul"));
    assert!(text_equals("", ""));
    assert!(!text_equals("é", "e"));
}
