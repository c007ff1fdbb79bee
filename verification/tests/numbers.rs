use service_supervisor::numbers::{parse_i32, parse_i64, parse_unsigned, write_i64, write_u64};

#[test]
fn numbers_are_read_like_the_standard_library_reads_them() {
    for text in &[
        "0", "7", "42", "+42", "-42", "-0", "+0", "007", "2147483647", "-2147483648",
        "2147483648", "-2147483649", "", "+", "-", " 1", "1 ", "1_000", "0x10", "١٢٣", "1.5",
        "--1", "+-1", "99999999999999999999999",
    ] {
        assert_eq!(parse_i32(text), text.parse::<i32>().ok(), "i32 from {:?}", text);
        assert_eq!(parse_i64(text), text.parse::<i64>().ok(), "i64 from {:?}", text);
        assert_eq!(
            parse_unsigned(text, u64::MAX),
            text.parse::<u64>().ok(),
            "u64 from {:?}",
            text
        );
        assert_eq!(
            parse_unsigned(text, 0xffff),
            text.parse::<u16>().ok().map(u64::from),
            "u16 from {:?}",
            text
        );
    }
    assert_eq!(parse_i64("9223372036854775807"), Some(i64::MAX));
    assert_eq!(parse_i64("-9223372036854775808"), Some(i64::MIN));
    assert_eq!(parse_i64("9223372036854775808"), None);
    assert_eq!(parse_unsigned("18446744073709551615", u64::MAX), Some(u64::MAX));
    assert_eq!(parse_unsigned("18446744073709551616", u64::MAX), None);
    assert_eq!(parse_unsigned("65535", 0xffff), Some(65535));
    assert_eq!(parse_unsigned("65536", 0xffff), None);
}

#[test]
fn numbers_are_written_in_decimal() {
    assert_eq!(write_u64(0), "0");
    assert_eq!(write_u64(9), "9");
    assert_eq!(write_u64(10), "10");
    assert_eq!(write_u64(1234567890), "1234567890");
    assert_eq!(write_u64(u64::MAX), "18446744073709551615");
    assert_eq!(write_i64(0), "0");
    assert_eq!(write_i64(-1), "-1");
    assert_eq!(write_i64(4711), "4711");
    assert_eq!(write_i64(i64::MIN), "-9223372036854775808");
    assert_eq!(write_i64(i64::MAX), "9223372036854775807");
}

#[test]
fn a_written_number_reads_back() {
    for n in &[0i64, 1, -1, 12345, -12345, i64::MAX, i64::MIN, 2147483647, -2147483648] {
        assert_eq!(parse_i64(&write_i64(*n)), Some(*n));
    }
}
