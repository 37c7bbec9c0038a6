use wet_tweet_gpu::oid::Oid;
use wet_tweet_gpu::strutil::{chars_of, decimal_string, parse_unsigned_text, str_eq, trim_text};

#[test]
fn decimal_text() {
    assert_eq!(decimal_string(0), "0");
    assert_eq!(decimal_string(7), "7");
    assert_eq!(decimal_string(1234), "1234");
    assert_eq!(decimal_string(usize::MAX), usize::MAX.to_string());
}

#[test]
fn unsigned_parsing_follows_std() {
    for s in ["0", "42", "+42", "007", "255", "256", "", "+", "++1", "-1", " 1", "1 ", "1a", "٣"] {
        let ours = parse_unsigned_text(s, 255).map(|v| v as u8);
        assert_eq!(ours, s.parse::<u8>().ok(), "input {:?}", s);
    }
    assert_eq!(parse_unsigned_text("18446744073709551615", u64::MAX), Some(u64::MAX));
    assert_eq!(parse_unsigned_text("18446744073709551616", u64::MAX), None);
}

#[test]
fn trimming_follows_std() {
    for s in ["  a b \n", "\u{3000}x\u{a0}", "", "   ", "x", "\t\r\nx y\u{2028}"] {
        assert_eq!(trim_text(s), s.trim(), "input {:?}", s);
    }
}

#[test]
fn chars_and_bytes() {
    let v = chars_of("şa");
    assert_eq!(v, vec!['ş', 'a']);
    assert!(str_eq("abc", "abc"));
    assert!(!str_eq("abc", "abd"));
    assert!(!str_eq("ab", "abc"));
}

#[test]
fn hex_round_trip() {
    let o = Oid::from_bytes([0, 1, 2, 0x0f, 0x10, 0xff, 0xab, 0xcd, 0xef, 0x12, 0x34, 0x56]);
    let h = o.to_hex();
    assert_eq!(h, "0001020f10ffabcdef123456");
    assert_eq!(Oid::parse_str(&h), Some(o));
    assert_eq!(Oid::parse_str("0001020F10FFABCDEF123456"), Some(o));
    assert_eq!(Oid::parse_str("0001020f10ffabcdef12345"), None);
    assert_eq!(Oid::parse_str("0001020f10ffabcdef1234567"), None);
    assert_eq!(Oid::parse_str("0001020f10ffabcdef12345g"), None);
    assert_eq!(Oid::parse_str("ş001020f10ffabcdef123456"), None);
}
