use jaeger_client_rust::hex::{format_hex, format_hex_padded, parse_hex_bytes};
use jaeger_client_rust::{convert_hex_to_u64, ParseHexError, TraceId};

#[test]
fn hex_reads_digits_of_either_case() {
    assert_eq!(convert_hex_to_u64("1f"), Ok(31));
    assert_eq!(convert_hex_to_u64("1F"), Ok(31));
    assert_eq!(convert_hex_to_u64("0"), Ok(0));
    assert_eq!(convert_hex_to_u64("deadBEEF"), Ok(0xdead_beef));
}

#[test]
fn hex_reads_leading_zeros() {
    assert_eq!(convert_hex_to_u64("0000000000000002"), Ok(2));
    assert_eq!(convert_hex_to_u64("00000000000000000000ff"), Ok(255));
}

#[test]
fn hex_reads_the_largest_number() {
    assert_eq!(convert_hex_to_u64("ffffffffffffffff"), Ok(u64::MAX));
    assert_eq!(convert_hex_to_u64("0ffffffffffffffff"), Ok(u64::MAX));
}

#[test]
fn hex_rejects_the_empty_text() {
    assert_eq!(convert_hex_to_u64(""), Err(ParseHexError::Empty));
}

#[test]
fn hex_rejects_what_is_no_digit() {
    assert_eq!(convert_hex_to_u64("12g4"), Err(ParseHexError::InvalidDigit));
    assert_eq!(convert_hex_to_u64("0x12"), Err(ParseHexError::InvalidDigit));
    assert_eq!(convert_hex_to_u64(" 12"), Err(ParseHexError::InvalidDigit));
    assert_eq!(convert_hex_to_u64("+12"), Err(ParseHexError::InvalidDigit));
    assert_eq!(convert_hex_to_u64("-1"), Err(ParseHexError::InvalidDigit));
    assert_eq!(convert_hex_to_u64("1\u{e9}"), Err(ParseHexError::InvalidDigit));
}

#[test]
fn hex_rejects_what_does_not_fit() {
    assert_eq!(convert_hex_to_u64("10000000000000000"), Err(ParseHexError::Overflow));
    assert_eq!(
        convert_hex_to_u64("fffffffffffffffffffffffff"),
        Err(ParseHexError::Overflow)
    );
}

#[test]
fn hex_reports_a_bad_digit_before_an_overflow() {
    assert_eq!(
        convert_hex_to_u64("fffffffffffffffffz"),
        Err(ParseHexError::InvalidDigit)
    );
}

#[test]
fn hex_reads_a_range_of_bytes() {
    let bytes = "xx1fyy".as_bytes();
    assert_eq!(parse_hex_bytes(bytes, 2, 4), Ok(31));
    assert_eq!(parse_hex_bytes(bytes, 2, 2), Err(ParseHexError::Empty));
    assert_eq!(parse_hex_bytes(bytes, 1, 4), Err(ParseHexError::InvalidDigit));
}

#[test]
fn hex_writes_without_padding() {
    assert_eq!(format_hex(0), "0");
    assert_eq!(format_hex(15), "f");
    assert_eq!(format_hex(16), "10");
    assert_eq!(format_hex(255), "ff");
    assert_eq!(format_hex(5208512171318403364), "48485a3953bb6124");
    assert_eq!(format_hex(u64::MAX), "ffffffffffffffff");
}

#[test]
fn hex_writes_with_padding() {
    assert_eq!(format_hex_padded(2, 16), "0000000000000002");
    assert_eq!(format_hex_padded(0, 4), "0000");
    assert_eq!(format_hex_padded(0xabc, 2), "bc");
    assert_eq!(format_hex_padded(7, 0), "");
    assert_eq!(format_hex_padded(u64::MAX, 16), "ffffffffffffffff");
}

#[test]
fn hex_written_reads_back() {
    for value in [0u64, 1, 9, 10, 15, 16, 255, 256, 4095, 1 << 32, u64::MAX - 1, u64::MAX] {
        assert_eq!(convert_hex_to_u64(&format_hex(value)), Ok(value));
        assert_eq!(convert_hex_to_u64(&format_hex_padded(value, 16)), Ok(value));
    }
}

#[test]
fn trace_id_of_one_half_is_written_short() {
    assert_eq!(TraceId { low: 1, high: 0 }.to_hex_string(), "1");
    assert_eq!(TraceId { low: 0, high: 0 }.to_hex_string(), "0");
    assert_eq!(
        TraceId { low: u64::MAX, high: 0 }.to_hex_string(),
        "ffffffffffffffff"
    );
}

#[test]
fn trace_id_of_two_halves_pads_the_low_half() {
    assert_eq!(TraceId { low: 2, high: 1 }.to_hex_string(), "10000000000000002");
    assert_eq!(
        TraceId { low: 0x48485a3953bb6124, high: 0x463ac35c9f6413ad }.to_hex_string(),
        "463ac35c9f6413ad48485a3953bb6124"
    );
    assert_eq!(TraceId { low: 0, high: 0xa }.to_hex_string(), "a0000000000000000");
}

#[test]
fn trace_id_text_is_split_at_sixteen_digits() {
    assert_eq!(TraceId::try_from("1"), Ok(TraceId { low: 1, high: 0 }));
    assert_eq!(
        TraceId::try_from("00000000000000010000000000000002"),
        Ok(TraceId { low: 2, high: 1 })
    );
    assert_eq!(
        TraceId::try_from("463ac35c9f6413ad48485a3953bb6124"),
        Ok(TraceId { low: 0x48485a3953bb6124, high: 0x463ac35c9f6413ad })
    );
    assert_eq!(
        TraceId::try_from("10000000000000002"),
        Ok(TraceId { low: 2, high: 1 })
    );
    assert_eq!(
        TraceId::try_from("ffffffffffffffff"),
        Ok(TraceId { low: u64::MAX, high: 0 })
    );
}

#[test]
fn trace_id_text_that_cannot_be_read() {
    assert_eq!(TraceId::try_from(""), Err(ParseHexError::Empty));
    assert_eq!(TraceId::try_from("xyz"), Err(ParseHexError::InvalidDigit));
    assert_eq!(
        TraceId::try_from("0000000000000001000000000000000g"),
        Err(ParseHexError::InvalidDigit)
    );
    assert_eq!(
        TraceId::try_from("g0000000000000010000000000000002"),
        Err(ParseHexError::InvalidDigit)
    );
    assert_eq!(
        TraceId::try_from("1ffffffffffffffff0000000000000002"),
        Err(ParseHexError::Overflow)
    );
    assert_eq!(
        TraceId::try_from("\u{e9}000000000000000000"),
        Err(ParseHexError::InvalidDigit)
    );
}

#[test]
fn trace_id_written_reads_back() {
    let ids = [
        TraceId { low: 0, high: 0 },
        TraceId { low: 1, high: 0 },
        TraceId { low: u64::MAX, high: 0 },
        TraceId { low: 0, high: 1 },
        TraceId { low: 2, high: 1 },
        TraceId { low: 0x10, high: 0x10 },
        TraceId { low: u64::MAX, high: u64::MAX },
    ];
    for id in ids {
        assert_eq!(TraceId::try_from(&id.to_hex_string()), Ok(id));
    }
}
