use rxfetch::parse::{hex_field_at, push_hex, unhex, FixedLengthHex, HexFieldError};

#[test]
fn fixed_length_hex_reads_two_digits() {
    assert!(matches!(FixedLengthHex(2).parse_next(b"ab"), Ok(0xab)));
}

#[test]
fn fixed_length_hex_short_input_fails() {
    assert!(matches!(
        FixedLengthHex(2).parse_next(b"a"),
        Err(HexFieldError::NotEnoughInput)
    ));
    assert!(matches!(
        FixedLengthHex(1).parse_next(b""),
        Err(HexFieldError::NotEnoughInput)
    ));
}

#[test]
fn fixed_length_hex_invalid_digit_fails() {
    assert!(matches!(
        FixedLengthHex(2).parse_next(b"1g"),
        Err(HexFieldError::InvalidHexDigit)
    ));
    assert!(matches!(
        FixedLengthHex(4).parse_next(b"00:0"),
        Err(HexFieldError::InvalidHexDigit)
    ));
}

#[test]
fn fixed_length_hex_reads_only_its_width() {
    assert!(matches!(FixedLengthHex(4).parse_next(b"1f3Bzz"), Ok(0x1f3b)));
    assert!(matches!(FixedLengthHex(0).parse_next(b"zz"), Ok(0)));
}

#[test]
fn fixed_length_hex_widest_field() {
    assert!(matches!(
        FixedLengthHex(16).parse_next(b"ffffffffffffffff"),
        Ok(u64::MAX)
    ));
}

#[test]
fn hex_field_at_offset() {
    assert!(matches!(hex_field_at(b"xx7e", 2, 2), Ok(0x7e)));
    assert!(matches!(
        hex_field_at(b"xx7", 2, 2),
        Err(HexFieldError::NotEnoughInput)
    ));
}

#[test]
fn unhex_maps_invalid_to_zero() {
    assert_eq!(unhex(b'z'), 0);
    assert_eq!(unhex(b'A'), 0);
    assert_eq!(unhex(b'\n'), 0);
}

#[test]
fn unhex_maps_digits() {
    assert_eq!(unhex(b'0'), 0);
    assert_eq!(unhex(b'9'), 9);
    assert_eq!(unhex(b'a'), 10);
    assert_eq!(unhex(b'f'), 15);
}

#[test]
fn push_hex_writes_lower_case_digits() {
    let mut out = Vec::new();
    push_hex(&mut out, 0xbeef, 4);
    push_hex(&mut out, 0x3, 2);
    assert_eq!(out, b"beef03".to_vec());
}

#[test]
fn fixed_length_hex_wider_than_result() {
    assert!(matches!(
        FixedLengthHex(17).parse_next(b"00000000000000001"),
        Err(HexFieldError::TooWide)
    ));
    assert!(matches!(
        FixedLengthHex(17).parse_next(b"0000000000000000x"),
        Err(HexFieldError::InvalidHexDigit)
    ));
    assert!(matches!(
        FixedLengthHex(20).parse_next(b"abc"),
        Err(HexFieldError::NotEnoughInput)
    ));
}
