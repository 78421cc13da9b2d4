use instance_catalog::utils::parsers::memory::{parse_memory_in_bytes, MemoryParserError};

const VALID_TEST_CASES: &[(&str, usize)] = &[
    ("2 KiB", 2048),
    ("2. Ki", 2048),
    (".5 KiB", 512),
    ("1.5 KiB", 1536),
    ("0.5 k", 500),
    ("2 MiB", 2097152),
    ("2. Mi", 2097152),
    ("2.0 Mi", 2097152),
    ("0.5 M", 500000),
    ("2 GiB", 2147483648),
    ("2. Gi", 2147483648),
    ("2.0 Gi", 2147483648),
    ("0.5 G", 500000000),
];

const INVALID_TEST_CASES: &[(&str, MemoryParserError)] = &[
    ("2x KiB", MemoryParserError::InvalidInput),
    ("2 XX", MemoryParserError::InvalidInput),
    ("x.5 KiB", MemoryParserError::InvalidInput),
    ("1.2x M", MemoryParserError::InvalidInput),
    ("1.2 Mx", MemoryParserError::InvalidInput),
];

#[test]
fn memory_check_valid_inputs() {
    for (value, expected_output) in VALID_TEST_CASES {
        assert_eq!(parse_memory_in_bytes(*value).unwrap(), *expected_output)
    }
}

#[test]
fn memory_check_invalid_inputs() {
    for (value, expected_output) in INVALID_TEST_CASES {
        assert_eq!(parse_memory_in_bytes(*value).unwrap_err(), *expected_output)
    }
}

#[test]
fn memory_of_a_bare_unit_is_zero() {
    assert_eq!(parse_memory_in_bytes("KiB"), Ok(0));
    assert_eq!(parse_memory_in_bytes(". G"), Ok(0));
    assert_eq!(parse_memory_in_bytes("0 k"), Ok(0));
}

#[test]
fn memory_is_rounded_up_to_a_whole_byte() {
    assert_eq!(parse_memory_in_bytes("0.0001 k"), Ok(1));
    assert_eq!(parse_memory_in_bytes("1.0001 Ki"), Ok(1025));
    assert_eq!(parse_memory_in_bytes("0.001 k"), Ok(1));
    assert_eq!(parse_memory_in_bytes("0.0009765625 Ki"), Ok(1));
    assert_eq!(parse_memory_in_bytes("0.00097656250000000000000000000000000000001 Ki"), Ok(2));
    assert_eq!(parse_memory_in_bytes("0.00097656249999999999999999999999999999999 Ki"), Ok(1));
}

#[test]
fn memory_is_computed_exactly() {
    assert_eq!(parse_memory_in_bytes("1 G"), Ok(1_000_000_000));
    assert_eq!(parse_memory_in_bytes("3.75 GiB"), Ok(4_026_531_840));
    assert_eq!(parse_memory_in_bytes("1.7 GiB"), Ok(1_825_361_101));
    assert_eq!(parse_memory_in_bytes("4.1 GiB"), Ok(4_402_341_479));
    assert_eq!(parse_memory_in_bytes("16777217 k"), Ok(16_777_217_000));
    assert_eq!(parse_memory_in_bytes("007.50 M"), Ok(7_500_000));
}

#[test]
fn memory_above_every_usize_is_the_largest_usize() {
    assert_eq!(parse_memory_in_bytes("99999999999999999999999999999999999 G"), Ok(usize::MAX));
    assert_eq!(parse_memory_in_bytes("18446744073709551616 k"), Ok(usize::MAX));
    assert_eq!(parse_memory_in_bytes("18446744073709551.615 k"), Ok(usize::MAX));
    assert_eq!(parse_memory_in_bytes("18446744073709551 k"), Ok(18_446_744_073_709_551_000));
}

#[test]
fn memory_ignores_every_white_space() {
    assert_eq!(parse_memory_in_bytes("\t2\u{a0}Ki B\n"), Ok(2048));
    assert_eq!(parse_memory_in_bytes(" 1 . 5 K i B "), Ok(1536));
    assert_eq!(parse_memory_in_bytes("\u{3000}1\u{2003}M"), Ok(1_000_000));
}

#[test]
fn memory_units_are_case_sensitive() {
    for text in ["2 kib", "2 KIB", "2 ki", "2 K", "2 m", "2 g", "2 B", "2", "", "2 KiBB", "Ki 2"] {
        assert_eq!(parse_memory_in_bytes(text), Err(MemoryParserError::InvalidInput), "{text}");
    }
}

#[test]
fn memory_rejects_signs_exponents_and_two_points() {
    for text in ["-1 k", "+1 k", "1e3 k", "1..5 k", "1.5.5 k", "1,5 k", "0x10 k"] {
        assert_eq!(parse_memory_in_bytes(text), Err(MemoryParserError::InvalidInput), "{text}");
    }
}

#[test]
fn memory_digits_of_other_scripts_cannot_be_converted() {
    assert_eq!(parse_memory_in_bytes("\u{663} KiB"), Err(MemoryParserError::ConversionError));
    assert_eq!(parse_memory_in_bytes("1.\u{96f} M"), Err(MemoryParserError::ConversionError));
    assert_eq!(parse_memory_in_bytes("\u{ff11}2 G"), Err(MemoryParserError::ConversionError));
}
