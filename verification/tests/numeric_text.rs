use evm_rpc_dashboard::numeric_text::{
    chars_of, parse_u64, push_decimal, push_hex, push_zero_padded, text_eq, u64_to_decimal,
};

#[test]
fn parse_plain_and_signed_numbers() {
    assert_eq!(parse_u64("0"), Some(0));
    assert_eq!(parse_u64("42"), Some(42));
    assert_eq!(parse_u64("+5"), Some(5));
    assert_eq!(parse_u64("007"), Some(7));
    assert_eq!(parse_u64("18446744073709551615"), Some(u64::MAX));
}

#[test]
fn parse_refuses_what_std_refuses() {
    assert_eq!(parse_u64(""), None);
    assert_eq!(parse_u64("+"), None);
    assert_eq!(parse_u64("-1"), None);
    assert_eq!(parse_u64("12a"), None);
    assert_eq!(parse_u64(" 1"), None);
    assert_eq!(parse_u64("18446744073709551616"), None);
    assert_eq!(parse_u64("99999999999999999999x"), None);
    assert_eq!(parse_u64("latest"), None);
}

#[test]
fn parse_agrees_with_std() {
    for s in ["0", "+0", "+", "", "1x", "123456", "18446744073709551615", "18446744073709551616", "٣"] {
        assert_eq!(parse_u64(s), s.parse::<u64>().ok(), "{}", s);
    }
}

#[test]
fn decimal_text_of_numbers() {
    assert_eq!(u64_to_decimal(0), "0");
    assert_eq!(u64_to_decimal(9), "9");
    assert_eq!(u64_to_decimal(10), "10");
    assert_eq!(u64_to_decimal(1234567890), "1234567890");
    assert_eq!(u64_to_decimal(u64::MAX), "18446744073709551615");
    let mut s = String::from("x=");
    push_decimal(&mut s, 305);
    assert_eq!(s, "x=305");
}

#[test]
fn decimal_round_trip_law_on_samples() {
    for n in [0u64, 1, 9, 10, 99, 100, 65535, 1 << 40, u64::MAX - 1, u64::MAX] {
        assert_eq!(parse_u64(&u64_to_decimal(n)), Some(n));
    }
}

#[test]
fn hex_text_of_numbers() {
    let mut s = String::new();
    push_hex(&mut s, 0x77);
    assert_eq!(s, "77");
    let mut s = String::new();
    push_hex(&mut s, 0);
    assert_eq!(s, "0");
    let mut s = String::from("0x");
    push_hex(&mut s, 0xdeadbeef);
    assert_eq!(s, "0xdeadbeef");
    let mut s = String::new();
    push_hex(&mut s, u64::MAX);
    assert_eq!(s, format!("{:x}", u64::MAX));
}

#[test]
fn zero_padding() {
    let mut s = String::new();
    push_zero_padded(&mut s, 5, 2);
    assert_eq!(s, "05");
    let mut s = String::new();
    push_zero_padded(&mut s, 123, 2);
    assert_eq!(s, "123");
    let mut s = String::new();
    push_zero_padded(&mut s, 0, 9);
    assert_eq!(s, "000000000");
    let mut s = String::new();
    push_zero_padded(&mut s, 42, 0);
    assert_eq!(s, "42");
}

#[test]
fn text_equality_and_chars() {
    assert!(text_eq("latest", "latest"));
    assert!(!text_eq("latest", "latest "));
    assert!(!text_eq("abc", "abd"));
    assert!(text_eq("", ""));
    assert_eq!(chars_of("a◎b"), vec!['a', '◎', 'b']);
}
