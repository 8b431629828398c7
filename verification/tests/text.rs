use ci_detective::text::{find_text, parse_bool, parse_u32, parse_unsigned, parse_usize, same_text};

#[test]
fn same_text_compares_characters() {
    assert!(same_text("", ""));
    assert!(same_text("true", "true"));
    assert!(!same_text("true", "True"));
    assert!(!same_text("true", "tru"));
    assert!(!same_text("tru", "true"));
    assert!(same_text("h\u{e9}llo \u{1f980}", "h\u{e9}llo \u{1f980}"));
    assert!(!same_text("h\u{e9}llo", "hello"));
}

#[test]
fn unsigned_zero_parses_to_zero() {
    assert_eq!(parse_u32("0"), Some(0));
    assert_eq!(parse_usize("0"), Some(0));
}

#[test]
fn unsigned_rejects_a_sign_and_letters() {
    assert_eq!(parse_u32("-1"), None);
    assert_eq!(parse_u32("abc"), None);
    assert_eq!(parse_usize("-1"), None);
    assert_eq!(parse_usize("abc"), None);
}

#[test]
fn unsigned_reads_decimal_digits() {
    assert_eq!(parse_u32("42"), Some(42));
    assert_eq!(parse_u32("007"), Some(7));
    assert_eq!(parse_u32("+5"), Some(5));
    assert_eq!(parse_u32("1234567890"), Some(1_234_567_890));
    assert_eq!(parse_unsigned("18446744073709551615", u64::MAX), Some(u64::MAX));
}

#[test]
fn unsigned_rejects_what_is_no_number() {
    for text in ["", "+", "-", "++1", "+-1", "1+", " 1", "1 ", "1_000", "0x10", "1.0", "1e3", "\u{663}", "12a", "a12"] {
        assert_eq!(parse_u32(text), None, "{:?}", text);
    }
}

#[test]
fn unsigned_stops_at_the_width() {
    assert_eq!(parse_u32("4294967295"), Some(u32::MAX));
    assert_eq!(parse_u32("4294967296"), None);
    assert_eq!(parse_u32("99999999999999999999999999999999999999999999"), None);
    assert_eq!(parse_unsigned("256", 255), None);
    assert_eq!(parse_unsigned("255", 255), Some(255));
    assert_eq!(parse_unsigned("18446744073709551616", u64::MAX), None);
    assert_eq!(parse_usize("18446744073709551616"), None);
}

#[test]
fn unsigned_agrees_with_the_standard_parser() {
    let mut samples: Vec<String> = Vec::new();
    for n in 0u64..300 {
        samples.push(n.to_string());
        samples.push(format!("+{}", n));
        samples.push(format!("-{}", n));
        samples.push(format!("0{}", n));
        samples.push(format!("{} ", n));
        samples.push(format!("{}x", n));
    }
    for n in [4294967294u64, 4294967295, 4294967296, 4294967297, 42949672950, u64::MAX] {
        samples.push(n.to_string());
        samples.push(format!("+{}", n));
        samples.push(format!("000{}", n));
    }
    for text in samples {
        assert_eq!(parse_u32(&text), text.parse::<u32>().ok(), "{:?}", text);
        assert_eq!(parse_usize(&text), text.parse::<usize>().ok(), "{:?}", text);
    }
}

#[test]
fn truth_values_are_spelled_exactly() {
    assert_eq!(parse_bool("true"), Some(true));
    assert_eq!(parse_bool("false"), Some(false));
    for text in ["", "True", "FALSE", "1", "0", "yes", " true", "true "] {
        assert_eq!(parse_bool(text), None, "{:?}", text);
        assert_eq!(parse_bool(text), text.parse::<bool>().ok(), "{:?}", text);
    }
}

#[test]
fn find_text_gives_the_first_position() {
    let items = vec!["push".to_string(), "api".to_string(), "push".to_string()];
    assert_eq!(find_text(&items, "push"), Some(0));
    assert_eq!(find_text(&items, "api"), Some(1));
    assert_eq!(find_text(&items, "Push"), None);
    assert_eq!(find_text(&Vec::new(), "push"), None);
}
