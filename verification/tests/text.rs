use xstatistics::text::{
    after_last_str, contains_str, isize_to_decimal, parse_isize, push_padded, trim_str, IntErrorKind,
};

#[test]
fn decimal_of_positive_negative_and_zero() {
    assert_eq!(isize_to_decimal(0), "0");
    assert_eq!(isize_to_decimal(7), "7");
    assert_eq!(isize_to_decimal(1234), "1234");
    assert_eq!(isize_to_decimal(-56), "-56");
    assert_eq!(isize_to_decimal(isize::MAX), isize::MAX.to_string());
    assert_eq!(isize_to_decimal(isize::MIN), isize::MIN.to_string());
}

#[test]
fn padded_decimal_fills_after_the_sign() {
    let mut s = String::new();
    push_padded(&mut s, 5, 2);
    assert_eq!(s, "05");
    let mut s = String::new();
    push_padded(&mut s, 2024, 4);
    assert_eq!(s, "2024");
    let mut s = String::new();
    push_padded(&mut s, 12345, 4);
    assert_eq!(s, "12345");
    let mut s = String::new();
    push_padded(&mut s, -5, 4);
    assert_eq!(s, format!("{:04}", -5));
    assert_eq!(s, "-005");
}

#[test]
fn trim_removes_unicode_white_space() {
    assert_eq!(trim_str("  x = 1 \n"), "x = 1");
    assert_eq!(trim_str("\u{a0}\u{3000}a b\u{2009}"), "a b");
    assert_eq!(trim_str("   "), "");
    assert_eq!(trim_str(""), "");
    let s = "\t mixed \r\n";
    assert_eq!(trim_str(s), s.trim());
}

#[test]
fn contains_finds_pieces() {
    assert!(contains_str("x where a = 1", " where "));
    assert!(!contains_str("somewhere", " where "));
    assert!(contains_str("abc", ""));
    assert!(!contains_str("ab", "abc"));
}

#[test]
fn after_last_takes_the_last_piece() {
    assert_eq!(after_last_str("a = b = c", '='), " c");
    assert_eq!(after_last_str("abc", '='), "abc");
    assert_eq!(after_last_str("abc=", '='), "");
    assert_eq!(after_last_str("", '='), "");
    let s = "p=q=r";
    assert_eq!(after_last_str(s, '='), s.split('=').next_back().unwrap());
}

#[test]
fn parse_reads_signed_decimals() {
    assert_eq!(parse_isize("42"), Ok(42));
    assert_eq!(parse_isize("+42"), Ok(42));
    assert_eq!(parse_isize("-42"), Ok(-42));
    assert_eq!(parse_isize("007"), Ok(7));
    assert_eq!(parse_isize(&isize::MIN.to_string()), Ok(isize::MIN));
    assert_eq!(parse_isize(&isize::MAX.to_string()), Ok(isize::MAX));
}

#[test]
fn parse_errors_match_std() {
    let cases = [
        "", "+", "-", "1a", " 1", "1 ", "--1", "+-1", "99999999999999999999", "-99999999999999999999",
        "99999999999999999999x", "12x99999999999999999999", "٣",
    ];
    for c in cases {
        let ours = parse_isize(c);
        let std = c.parse::<isize>();
        match (ours, std) {
            (Ok(x), Ok(y)) => assert_eq!(x, y, "{:?}", c),
            (Err(k), Err(e)) => {
                let expected = match e.kind() {
                    std::num::IntErrorKind::Empty => IntErrorKind::Empty,
                    std::num::IntErrorKind::InvalidDigit => IntErrorKind::InvalidDigit,
                    std::num::IntErrorKind::PosOverflow => IntErrorKind::PosOverflow,
                    std::num::IntErrorKind::NegOverflow => IntErrorKind::NegOverflow,
                    _ => panic!("unexpected kind"),
                };
                assert_eq!(k, expected, "{:?}", c);
            },
            (o, s) => panic!("{:?}: ours {:?}, std {:?}", c, o, s),
        }
    }
    assert_eq!(parse_isize(""), Err(IntErrorKind::Empty));
    assert_eq!(parse_isize("-"), Err(IntErrorKind::InvalidDigit));
    assert_eq!(parse_isize("99999999999999999999"), Err(IntErrorKind::PosOverflow));
    assert_eq!(parse_isize("-99999999999999999999"), Err(IntErrorKind::NegOverflow));
}

#[test]
fn decimal_text_reads_back() {
    for n in [0isize, 1, -1, 9, 10, -10, 123456, -987654, isize::MAX, isize::MIN] {
        assert_eq!(parse_isize(&isize_to_decimal(n)), Ok(n));
    }
}
