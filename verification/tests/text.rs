use termclock::text::{chars_of, parse_digits, parse_signed, parse_unsigned, push_decimal};

fn decimal(n: u128) -> String {
    let mut out = Vec::new();
    push_decimal(&mut out, n);
    String::from_utf8(out).unwrap()
}

#[test]
fn numbers_are_written_in_decimal() {
    assert_eq!(decimal(0), "0");
    assert_eq!(decimal(7), "7");
    assert_eq!(decimal(10), "10");
    assert_eq!(decimal(255), "255");
    assert_eq!(decimal(65536), "65536");
    assert_eq!(decimal(u128::MAX), u128::MAX.to_string());
    let mut out = vec![b'a'];
    push_decimal(&mut out, 42);
    assert_eq!(out, b"a42");
}

#[test]
fn unsigned_numbers_are_read_as_the_standard_library_reads_them() {
    for s in ["0", "1", "+1", "-1", "", "+", "255", "256", "0000", "12a", " 1", "1 ", "+-1", "++1", "١"] {
        assert_eq!(parse_unsigned(s, 255).map(|v| v as u8), s.parse::<u8>().ok(), "{:?}", s);
    }
    assert_eq!(parse_unsigned("18446744073709551615", u64::MAX), Some(u64::MAX));
    assert_eq!(parse_unsigned("18446744073709551616", u64::MAX), None);
    assert_eq!(parse_unsigned("99999999999999999999999999", u64::MAX), None);
    assert_eq!(parse_unsigned("0", 0), Some(0));
    assert_eq!(parse_unsigned("1", 0), None);
}

#[test]
fn signed_numbers_are_read_as_the_standard_library_reads_them() {
    for s in [
        "0", "-0", "+0", "1", "-1", "+1", "", "-", "+", "--1", "-+1", "9223372036854775807",
        "9223372036854775808", "-9223372036854775808", "-9223372036854775809", "1e3", "0x10",
        "1.0", " 1", "00012", "-00012",
    ] {
        assert_eq!(parse_signed(s), s.parse::<i64>().ok(), "{:?}", s);
    }
}

#[test]
fn digits_are_read_from_a_start_index() {
    let chars = chars_of("ab123");
    assert_eq!(chars, vec!['a', 'b', '1', '2', '3']);
    assert_eq!(parse_digits(&chars, 2, 1000), Some(123));
    assert_eq!(parse_digits(&chars, 2, 122), None);
    assert_eq!(parse_digits(&chars, 1, 1000), None);
    assert_eq!(parse_digits(&chars, 5, 1000), None);
    assert_eq!(parse_digits(&chars, 4, 3), Some(3));
    assert_eq!(chars_of("é√"), vec!['é', '√']);
    assert!(chars_of("").is_empty());
}
