use wasm_fib::number::{format_i64, format_u64, parse_u32, parse_u64, parse_usize, IntErrorKind};

#[test]
fn parses_like_the_standard_library() {
    for text in ["0", "42", "+7", "-1", "", "+", "-", "12a", "007", "18446744073709551615", "18446744073709551616", "99999999999999999999x", " 1", "٣"] {
        let expected = text.parse::<u64>().map_err(|_| ());
        assert_eq!(parse_u64(text).map_err(|_| ()), expected, "{text:?}");
    }
    for text in ["4294967295", "4294967296", "+0"] {
        assert_eq!(parse_u32(text).ok(), text.parse::<u32>().ok(), "{text:?}");
    }
    assert_eq!(parse_usize("16"), Ok(16));
}

#[test]
fn reports_the_error_kind() {
    assert_eq!(parse_u64(""), Err(IntErrorKind::Empty));
    assert_eq!(parse_u64("+"), Err(IntErrorKind::InvalidDigit));
    assert_eq!(parse_u64("-5"), Err(IntErrorKind::InvalidDigit));
    assert_eq!(parse_u64("99999999999999999999x"), Err(IntErrorKind::PosOverflow));
    assert_eq!(parse_u32("4294967296"), Err(IntErrorKind::PosOverflow));
    assert_eq!(IntErrorKind::Empty.description(), "".parse::<u64>().unwrap_err().to_string());
    assert_eq!(IntErrorKind::InvalidDigit.description(), "x".parse::<u64>().unwrap_err().to_string());
    assert_eq!(IntErrorKind::PosOverflow.description(), "99999999999999999999".parse::<u64>().unwrap_err().to_string());
}

#[test]
fn formats_decimal() {
    assert_eq!(format_u64(0), "0");
    assert_eq!(format_u64(9_227_465), "9227465");
    assert_eq!(format_u64(u64::MAX), u64::MAX.to_string());
    assert_eq!(format_i64(-42), "-42");
    assert_eq!(format_i64(i64::MIN), i64::MIN.to_string());
    assert_eq!(format_i64(10), "10");
}

#[test]
fn format_then_parse_round_trips() {
    for value in [0u64, 9, 10, 52, 1_700_000, u64::MAX] {
        assert_eq!(parse_u64(&format_u64(value)), Ok(value));
    }
}
