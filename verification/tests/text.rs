use rtlambda::text::{as_text, decimal, parse_u64, parse_unsigned, parse_usize, same_text, to_owned_text};

#[test]
fn texts_compare_by_their_characters() {
    assert!(same_text("", ""));
    assert!(same_text("on-demand", "on-demand"));
    assert!(same_text("déjà vu", "déjà vu"));
    assert!(!same_text("on-demand", "on-demanD"));
    assert!(!same_text("on-demand", "on-demand "));
    assert!(!same_text("", "a"));
    assert!(!same_text("é", "e"));
}

#[test]
fn optional_texts_convert() {
    assert_eq!(as_text(&Some("a".to_string())), Some("a"));
    assert_eq!(as_text(&None), None);
    assert_eq!(to_owned_text(Some("a")), Some("a".to_string()));
    assert_eq!(to_owned_text(None), None);
}

#[test]
fn numbers_parse_as_the_standard_library_parses_them() {
    let samples = [
        "", "0", "7", "42", "007", "+5", "+", "++5", "-5", "-0", "+0", " 5", "5 ", "5a", "a5",
        "1_000", "1.0", "1e3", "0x10", "١٢٣", "５", "18446744073709551615", "18446744073709551616",
        "99999999999999999999999999", "000000000000000000000000000000000001",
        "+18446744073709551615", "4294967295", "4294967296",
    ];
    for text in samples {
        assert_eq!(parse_u64(text), text.parse::<u64>().ok(), "u64 from {:?}", text);
        assert_eq!(parse_usize(text), text.parse::<usize>().ok(), "usize from {:?}", text);
        assert_eq!(
            parse_unsigned(text, 65535),
            text.parse::<u16>().ok().map(|v| v as u64),
            "u16 from {:?}",
            text
        );
    }
}

#[test]
fn parse_exact_values() {
    assert_eq!(parse_u64("1542409706888"), Some(1542409706888));
    assert_eq!(parse_u64("+12"), Some(12));
    assert_eq!(parse_u64("18446744073709551615"), Some(u64::MAX));
    assert_eq!(parse_u64("18446744073709551616"), None);
    assert_eq!(parse_u64("twelve"), None);
    assert_eq!(parse_usize("128"), Some(128));
    assert_eq!(parse_unsigned("10", 9), None);
    assert_eq!(parse_unsigned("9", 9), Some(9));
    assert_eq!(parse_unsigned("0", 0), Some(0));
    assert_eq!(parse_unsigned("1", 0), None);
}

#[test]
fn numbers_are_written_in_decimal() {
    assert_eq!(decimal(0), "0");
    assert_eq!(decimal(9), "9");
    assert_eq!(decimal(10), "10");
    assert_eq!(decimal(404), "404");
    assert_eq!(decimal(500), "500");
    assert_eq!(decimal(65535), "65535");
    for n in 0..=u16::MAX {
        assert_eq!(decimal(n), n.to_string());
    }
}
