use magnolia::text::{join_lines, parse_id, parse_u64, str_eq, u64_to_decimal};

#[test]
fn decimal_of_zero_and_max() {
    assert_eq!(u64_to_decimal(0), "0");
    assert_eq!(u64_to_decimal(7), "7");
    assert_eq!(u64_to_decimal(1234567890), "1234567890");
    assert_eq!(u64_to_decimal(u64::MAX), "18446744073709551615");
}

#[test]
fn decimal_round_trips_through_parse() {
    for n in [1u64, 9, 10, 99, 100, 1_000_000_007, 1234567890123456789, u64::MAX] {
        assert_eq!(parse_u64(&u64_to_decimal(n)), Some(n));
        assert_eq!(parse_id(&u64_to_decimal(n)), Some(n));
    }
}

#[test]
fn parse_accepts_what_std_accepts() {
    for s in ["0", "+7", "007", "18446744073709551615", "", "+", "-1", "12a", " 1", "18446744073709551616", "１"] {
        assert_eq!(parse_u64(s), s.parse::<u64>().ok(), "input {s:?}");
    }
}

#[test]
fn parse_id_refuses_zero() {
    assert_eq!(parse_id("0"), None);
    assert_eq!(parse_id("+0"), None);
    assert_eq!(parse_id("+42"), Some(42));
    assert_eq!(parse_id("x"), None);
}

#[test]
fn join_lines_separates_parts() {
    let parts: Vec<String> = vec!["a".to_string(), "bc".to_string(), "".to_string()];
    assert_eq!(join_lines(&parts, "\n"), "a\nbc\n");
    assert_eq!(join_lines(&vec!["only".to_string()], ", "), "only");
    assert_eq!(join_lines(&Vec::new(), ", "), "");
}

#[test]
fn str_eq_compares_text() {
    assert!(str_eq("clear", "clear"));
    assert!(!str_eq("clear", "Clear"));
    assert!(!str_eq("", " "));
}
