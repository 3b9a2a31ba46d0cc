use easy_gnome::text::{format_bool, format_unsigned, parse_bool, parse_unsigned};

#[test]
fn bool_is_written_as_true_or_false() {
    assert_eq!(format_bool(true), "true");
    assert_eq!(format_bool(false), "false");
}

#[test]
fn bool_is_read_from_true_or_false_only() {
    assert_eq!(parse_bool("true"), Some(true));
    assert_eq!(parse_bool("false"), Some(false));
    assert_eq!(parse_bool(""), None);
    assert_eq!(parse_bool("True"), None);
    assert_eq!(parse_bool("true "), None);
    assert_eq!(parse_bool("1"), None);
    assert_eq!(parse_bool("yes"), None);
}

#[test]
fn bool_round_trip() {
    assert_eq!(parse_bool(&format_bool(true)), Some(true));
    assert_eq!(parse_bool(&format_bool(false)), Some(false));
}

#[test]
fn unsigned_is_written_in_decimal() {
    assert_eq!(format_unsigned(0), "0");
    assert_eq!(format_unsigned(7), "7");
    assert_eq!(format_unsigned(10), "10");
    assert_eq!(format_unsigned(4000), "4000");
    assert_eq!(format_unsigned(1_000_000), "1000000");
    assert_eq!(format_unsigned(u32::MAX), "4294967295");
}

#[test]
fn unsigned_is_written_as_the_standard_library_writes_it() {
    for value in [0u32, 1, 9, 10, 11, 99, 100, 101, 255, 6500, 65535, 123456789, u32::MAX] {
        assert_eq!(format_unsigned(value), value.to_string());
    }
}

#[test]
fn unsigned_is_read_from_digits() {
    assert_eq!(parse_unsigned("0"), Some(0));
    assert_eq!(parse_unsigned("24"), Some(24));
    assert_eq!(parse_unsigned("4000"), Some(4000));
    assert_eq!(parse_unsigned("4294967295"), Some(u32::MAX));
}

#[test]
fn unsigned_may_carry_a_plus_and_leading_zeros() {
    assert_eq!(parse_unsigned("+5"), Some(5));
    assert_eq!(parse_unsigned("007"), Some(7));
    assert_eq!(parse_unsigned("+000"), Some(0));
    assert_eq!(parse_unsigned("00000000000000000004294967295"), Some(u32::MAX));
}

#[test]
fn unsigned_rejects_what_is_no_number() {
    assert_eq!(parse_unsigned(""), None);
    assert_eq!(parse_unsigned("+"), None);
    assert_eq!(parse_unsigned("-1"), None);
    assert_eq!(parse_unsigned("++1"), None);
    assert_eq!(parse_unsigned("1+"), None);
    assert_eq!(parse_unsigned(" 1"), None);
    assert_eq!(parse_unsigned("1 "), None);
    assert_eq!(parse_unsigned("1_000"), None);
    assert_eq!(parse_unsigned("12a"), None);
    assert_eq!(parse_unsigned("uint32 4000"), None);
    assert_eq!(parse_unsigned("1.0"), None);
    assert_eq!(parse_unsigned("٣"), None);
    assert_eq!(parse_unsigned("1é"), None);
}

#[test]
fn unsigned_rejects_what_does_not_fit() {
    assert_eq!(parse_unsigned("4294967296"), None);
    assert_eq!(parse_unsigned("99999999999"), None);
    assert_eq!(parse_unsigned("18446744073709551616"), None);
    assert_eq!(parse_unsigned("340282366920938463463374607431768211456"), None);
}

#[test]
fn unsigned_is_read_as_the_standard_library_reads_it() {
    for text in [
        "", "+", "-", "0", "+0", "-0", "00", "42", "+42", "042", "4294967295", "4294967296",
        "42949672950", " 42", "42 ", "4 2", "0x10", "1e3", "true", "٤٢",
    ] {
        assert_eq!(parse_unsigned(text), text.parse::<u32>().ok(), "{:?}", text);
    }
}

#[test]
fn unsigned_round_trip() {
    for value in [0u32, 1, 9, 10, 100, 1000, 4000, 6500, 65536, 999_999_999, u32::MAX - 1, u32::MAX] {
        assert_eq!(parse_unsigned(&format_unsigned(value)), Some(value));
    }
}
