use love_unlimited::text::{decimal_string, parse_bool, parse_unsigned};

#[test]
fn parse_unsigned_accepts_what_std_accepts() {
    for s in ["0", "7", "+7", "0042", "18446744073709551615", "", "+", "-1", "1a", " 1", "18446744073709551616", "++1"] {
        assert_eq!(parse_unsigned(s, u64::MAX), s.parse::<u64>().ok(), "{}", s);
    }
    for s in ["4294967295", "4294967296", "+0", "12"] {
        assert_eq!(parse_unsigned(s, u32::MAX as u64), s.parse::<u32>().ok().map(|v| v as u64), "{}", s);
    }
}

#[test]
fn parse_bool_accepts_exact_words() {
    assert_eq!(parse_bool(&"true".to_string()), Some(true));
    assert_eq!(parse_bool(&"false".to_string()), Some(false));
    assert_eq!(parse_bool(&"TRUE".to_string()), None);
    assert_eq!(parse_bool(&"".to_string()), None);
}

#[test]
fn decimal_string_matches_to_string() {
    for n in [0u64, 5, 10, 99, 100, 12345, u64::MAX] {
        assert_eq!(decimal_string(n), n.to_string());
    }
}

#[test]
fn decimal_then_parse_round_trips() {
    for n in [0u64, 9, 10, 4294967295, u64::MAX] {
        assert_eq!(parse_unsigned(&decimal_string(n), u64::MAX), Some(n));
    }
}
