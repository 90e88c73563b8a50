use rs4::literal::parse_literal;

#[test]
fn test_parse_unsigned() {
    assert_eq!(parse_literal(b"10050", 10), Some(10050),);
    assert_eq!(parse_literal(b"+10050", 10), Some(10050),);

    assert_eq!(parse_literal(b"$FFFF", 10), Some(0xFFFF),);

    assert_eq!(parse_literal(b"%1111000011110000", 10), Some(0b1111_0000_1111_0000),)
}

fn assert_parse_negative(src: &[u8], default_radix: u32, expected_abs: u16) {
    assert_eq!(parse_literal(src, default_radix).unwrap(), 0u16.wrapping_sub(expected_abs))
}

#[test]
fn test_parse_signed() {
    assert_parse_negative(b"-1", 10, 1);
    assert_parse_negative(b"$-7FFF", 10, 0x7FFF);
    assert_parse_negative(b"%-10101010", 10, 0b10101010);
}

#[test]
fn test_parse_different_radix() {
    assert_eq!(parse_literal(b"zZz", 36).unwrap(), 46655)
}

#[test]
fn test_parse_overflow() {
    assert_eq!(parse_literal(b"100500", 10), None);

    assert_eq!(parse_literal(b"$-8FFF", 10), None)
}

#[test]
fn test_parse_bad_string() {
    assert_eq!(parse_literal(b"Z", 10), None)
}

#[test]
fn test_parse_empty_and_bare_signs() {
    assert_eq!(parse_literal(b"", 10), None);
    assert_eq!(parse_literal(b"-", 10), None);
    assert_eq!(parse_literal(b"+", 10), None);
    assert_eq!(parse_literal(b"$", 10), None);
}

#[test]
fn test_parse_negative_boundaries() {
    assert_eq!(parse_literal(b"-32767", 10), Some(0x8001));
    assert_eq!(parse_literal(b"-32768", 10), None);
    assert_eq!(parse_literal(b"-0", 10), Some(0));
}
