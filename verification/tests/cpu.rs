use instance_catalog::utils::parsers::cpu::{parse_cpu, CpuParserError};

const VALID_TEST_CASES: &[(&str, usize)] = &[
    ("2", 2000),
    ("2.0 ", 2000),
    ("2.3 ", 2300),
    ("500m", 500),
    ("0.1m", 0),
    ("1500m", 1500),
];

const INVALID_TEST_CASES: &[(&str, CpuParserError)] = &[
    ("2x", CpuParserError::InvalidInput),
    ("2 XX", CpuParserError::InvalidInput),
    ("x.5 m", CpuParserError::InvalidInput),
    ("1.2x m", CpuParserError::InvalidInput),
];

#[test]
fn cpu_check_valid_inputs() {
    for (value, expected_output) in VALID_TEST_CASES {
        assert_eq!(parse_cpu(*value).unwrap(), *expected_output)
    }
}

#[test]
fn cpu_check_invalid_inputs() {
    for (value, expected_output) in INVALID_TEST_CASES {
        assert_eq!(parse_cpu(*value).unwrap_err(), *expected_output)
    }
}

#[test]
fn cpu_of_nothing_is_zero() {
    assert_eq!(parse_cpu(""), Ok(0));
    assert_eq!(parse_cpu("   "), Ok(0));
    assert_eq!(parse_cpu("m"), Ok(0));
    assert_eq!(parse_cpu("."), Ok(0));
    assert_eq!(parse_cpu(".m"), Ok(0));
}

#[test]
fn cpu_is_cut_to_whole_millicores() {
    assert_eq!(parse_cpu("1.999m"), Ok(1));
    assert_eq!(parse_cpu("0.9999999999999999999999999m"), Ok(0));
    assert_eq!(parse_cpu("0.0009"), Ok(0));
    assert_eq!(parse_cpu("0.001"), Ok(1));
    assert_eq!(parse_cpu("0.0019999999999999999999999999999"), Ok(1));
    assert_eq!(parse_cpu("2.5"), Ok(2500));
    assert_eq!(parse_cpu(".25"), Ok(250));
    assert_eq!(parse_cpu("4.35"), Ok(4350));
    assert_eq!(parse_cpu("16777217"), Ok(16_777_217_000));
}

#[test]
fn cpu_above_every_usize_is_the_largest_usize() {
    assert_eq!(parse_cpu("18446744073709551616m"), Ok(usize::MAX));
    assert_eq!(parse_cpu("18446744073709551615m"), Ok(usize::MAX));
    assert_eq!(parse_cpu("18446744073709551614.9m"), Ok(18_446_744_073_709_551_614));
    assert_eq!(parse_cpu("18446744073709551.616"), Ok(usize::MAX));
}

#[test]
fn cpu_takes_no_other_unit() {
    for text in ["2M", "2 cores", "2mm", "m2", "2 k", "-2", "+2", "1e3", "1..2"] {
        assert_eq!(parse_cpu(text), Err(CpuParserError::InvalidInput), "{text}");
    }
}

#[test]
fn cpu_digits_of_other_scripts_cannot_be_converted() {
    assert_eq!(parse_cpu("\u{663}"), Err(CpuParserError::ConversionError));
    assert_eq!(parse_cpu("1.\u{663}m"), Err(CpuParserError::ConversionError));
}
