use bing2bing::text::{chars_of, contains_str, find_char, parse_u64, starts_with, u64_to_decimal};

#[test]
fn decimal_round_trip() {
    for n in [0u64, 7, 10, 99, 3000, 65535, u64::MAX] {
        let s = u64_to_decimal(n);
        assert_eq!(s, n.to_string());
        assert_eq!(parse_u64(&s), Some(n));
    }
}

#[test]
fn parse_u64_follows_str_parse() {
    for s in ["+5", "", "+", "-1", "18446744073709551616", "12a", "007", " 1", "18446744073709551615"] {
        assert_eq!(parse_u64(s), s.parse::<u64>().ok(), "input {:?}", s);
    }
}

#[test]
fn char_helpers() {
    let v = chars_of("héllo wörld");
    assert_eq!(v.len(), 11);
    assert!(starts_with(&v, "héllo"));
    assert!(!starts_with(&v, "hello"));
    assert_eq!(find_char(&v, ' '), Some(5));
    assert_eq!(find_char(&v, 'z'), None);
    assert!(contains_str(&v, "wör"));
    assert!(!contains_str(&v, "world"));
}
