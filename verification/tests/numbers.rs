use todoist::numbers::i64_to_string;
use todoist::numbers::parse_priority;
use todoist::numbers::u64_to_string;

#[test]
fn parse_priority_reads_plain_digits() {
    assert_eq!(parse_priority("1"), Some(1));
    assert_eq!(parse_priority("4"), Some(4));
    assert_eq!(parse_priority("255"), Some(255));
    assert_eq!(parse_priority("007"), Some(7));
}

#[test]
fn parse_priority_accepts_a_leading_plus() {
    assert_eq!(parse_priority("+4"), Some(4));
    assert_eq!(parse_priority("+0"), Some(0));
}

#[test]
fn parse_priority_rejects_what_the_standard_parser_rejects() {
    assert_eq!(parse_priority(""), None);
    assert_eq!(parse_priority("+"), None);
    assert_eq!(parse_priority("256"), None);
    assert_eq!(parse_priority("1000"), None);
    assert_eq!(parse_priority("-1"), None);
    assert_eq!(parse_priority("4a"), None);
    assert_eq!(parse_priority(" 4"), None);
    assert_eq!(parse_priority("4.5"), None);
}

#[test]
fn parse_priority_agrees_with_the_standard_parser() {
    for s in ["0", "9", "10", "042", "255", "256", "999", "+17", "x", ""] {
        assert_eq!(parse_priority(s), s.parse::<u8>().ok(), "input {:?}", s);
    }
}

#[test]
fn unsigned_rendering_is_decimal() {
    assert_eq!(u64_to_string(0), "0");
    assert_eq!(u64_to_string(7), "7");
    assert_eq!(u64_to_string(42), "42");
    assert_eq!(u64_to_string(18446744073709551615), "18446744073709551615");
}

#[test]
fn signed_rendering_matches_the_standard_formatter() {
    for n in [0i64, 1, -1, 4, 99, -100, 1234567890, i64::MAX, i64::MIN] {
        assert_eq!(i64_to_string(n), n.to_string(), "input {}", n);
    }
}
