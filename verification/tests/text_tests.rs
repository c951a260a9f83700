use psistats::text::{parse_unsigned, remove_all_of, starts_with, starts_with_char, str_eq};

#[test]
fn parse_unsigned_reads_like_std() {
    assert_eq!(parse_unsigned("0", u64::MAX), Some(0));
    assert_eq!(parse_unsigned("1883", 65535), Some(1883));
    assert_eq!(parse_unsigned("+42", u64::MAX), Some(42));
    assert_eq!(parse_unsigned("18446744073709551615", u64::MAX), Some(u64::MAX));
    assert_eq!(parse_unsigned("18446744073709551616", u64::MAX), None);
    assert_eq!(parse_unsigned("65536", 65535), None);
    assert_eq!(parse_unsigned("", u64::MAX), None);
    assert_eq!(parse_unsigned("+", u64::MAX), None);
    assert_eq!(parse_unsigned("-1", u64::MAX), None);
    assert_eq!(parse_unsigned("12a", u64::MAX), None);
    assert_eq!(parse_unsigned(" 12", u64::MAX), None);
    for s in ["0", "7", "+9", "123456", "65535", "65536", "x", "", "99999999999999999999"] {
        assert_eq!(parse_unsigned(s, u64::MAX), s.parse::<u64>().ok());
        assert_eq!(parse_unsigned(s, 65535).map(|v| v as u16), s.parse::<u16>().ok());
    }
}

#[test]
fn string_helpers() {
    assert!(str_eq("same", "same"));
    assert!(!str_eq("same", "Same"));
    assert!(starts_with("r_cpu", "r_"));
    assert!(!starts_with("p_log", "r_"));
    assert!(!starts_with("r", "r_"));
    assert!(starts_with_char("{\"a\":1}", '{'));
    assert!(!starts_with_char("", '{'));
}

#[test]
fn remove_all_matches_replace() {
    for s in ["r_cpu", "r_ip_addrs", "r_r_x", "rr__", "cpu", "", "r_", "ar_b_r_"] {
        assert_eq!(remove_all_of(s, "r_"), s.replace("r_", ""));
    }
    assert_eq!(remove_all_of("abc", ""), "abc");
}
