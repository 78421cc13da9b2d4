use instance_catalog::utils::parsers::cpu::{convert_cpu_to_usize, extract_cpu, CpuParserError};
use instance_catalog::utils::parsers::decimal::{
    digit_of, parse_plain_integer, scale_decimal, scale_fraction, whole_value,
};
use instance_catalog::utils::parsers::memory::{
    convert_memory_to_usize, extract_memory_in_bytes, lookup_unit_scale, MemoryParserError,
};
use instance_catalog::utils::parsers::cpu::CPU_PATTERN;
use instance_catalog::utils::parsers::memory::MEMORY_PATTERN;
use instance_catalog::utils::parsers::pattern::{
    extract_number, match_quantity, spells_text, QuantityCaptures,
};
use instance_catalog::utils::parsers::text::{chars_of, remove_whitespace, same_text};

fn captures(number: Option<&str>, decimal: Option<&str>, unit: Option<&str>) -> QuantityCaptures {
    QuantityCaptures {
        number: number.map(String::from),
        decimal: decimal.map(String::from),
        unit: unit.map(String::from),
    }
}

#[test]
fn unit_scales_are_those_of_the_table() {
    assert_eq!(lookup_unit_scale("k"), Some(1000));
    assert_eq!(lookup_unit_scale("Ki"), Some(1024));
    assert_eq!(lookup_unit_scale("KiB"), Some(1024));
    assert_eq!(lookup_unit_scale("M"), Some(1_000_000));
    assert_eq!(lookup_unit_scale("Mi"), Some(1_048_576));
    assert_eq!(lookup_unit_scale("MiB"), Some(1_048_576));
    assert_eq!(lookup_unit_scale("G"), Some(1_000_000_000));
    assert_eq!(lookup_unit_scale("Gi"), Some(1_073_741_824));
    assert_eq!(lookup_unit_scale("GiB"), Some(1_073_741_824));
    for unit in ["", "K", "kB", "m", "g", "Ti", "TiB", "B", "KiB ", "kib"] {
        assert_eq!(lookup_unit_scale(unit), None, "{unit}");
    }
}

#[test]
fn memory_of_captures_needs_a_known_unit() {
    assert_eq!(
        extract_memory_in_bytes(&captures(Some("2"), None, None)),
        Err(MemoryParserError::InvalidInput)
    );
    assert_eq!(
        extract_memory_in_bytes(&captures(Some("2"), None, Some("XX"))),
        Err(MemoryParserError::InvalidInput)
    );
    assert_eq!(
        extract_memory_in_bytes(&captures(Some("x"), None, Some("XX"))),
        Err(MemoryParserError::InvalidInput)
    );
}

#[test]
fn memory_of_captures_reads_absent_parts_as_zero() {
    assert_eq!(extract_memory_in_bytes(&captures(None, None, Some("Ki"))), Ok(0));
    assert_eq!(extract_memory_in_bytes(&captures(Some("2"), None, Some("Ki"))), Ok(2048));
    assert_eq!(extract_memory_in_bytes(&captures(None, Some("5"), Some("KiB"))), Ok(512));
    assert_eq!(extract_memory_in_bytes(&captures(Some("1"), Some("5"), Some("KiB"))), Ok(1536));
    assert_eq!(extract_memory_in_bytes(&captures(Some(""), Some(""), Some("G"))), Ok(0));
}

#[test]
fn memory_of_captures_with_other_than_digits_is_a_conversion_error() {
    for (number, decimal) in [("1x", "0"), ("1", "x"), ("-1", "0"), ("1", "5e3"), (" 1", "0"), ("\u{663}", "0")] {
        assert_eq!(
            extract_memory_in_bytes(&captures(Some(number), Some(decimal), Some("M"))),
            Err(MemoryParserError::ConversionError),
            "{number}.{decimal}"
        );
    }
}

#[test]
fn cpu_of_captures_is_in_millicores_with_any_unit() {
    assert_eq!(extract_cpu(&captures(Some("500"), None, Some("m"))), Ok(500));
    assert_eq!(extract_cpu(&captures(Some("500"), None, Some("anything"))), Ok(500));
    assert_eq!(extract_cpu(&captures(Some("2"), Some("5"), None)), Ok(2500));
    assert_eq!(extract_cpu(&captures(None, None, None)), Ok(0));
    assert_eq!(extract_cpu(&captures(None, Some("0019"), None)), Ok(1));
    assert_eq!(
        extract_cpu(&captures(Some("2x"), None, None)),
        Err(CpuParserError::ConversionError)
    );
    assert_eq!(
        extract_cpu(&captures(Some("2"), Some("x"), Some("m"))),
        Err(CpuParserError::ConversionError)
    );
}

#[test]
fn conversions_round_as_their_quantity_asks() {
    assert_eq!(convert_memory_to_usize("1", "5", 1024), Ok(1536));
    assert_eq!(convert_memory_to_usize("0", "1", 1), Ok(1));
    assert_eq!(convert_memory_to_usize("", "", 1024), Ok(0));
    assert_eq!(convert_memory_to_usize("1", "a", 1024), Err(MemoryParserError::ConversionError));
    assert_eq!(convert_cpu_to_usize("0", "1", 1), Ok(0));
    assert_eq!(convert_cpu_to_usize("0", "9999", 1000), Ok(999));
    assert_eq!(convert_cpu_to_usize("12", "3456", 1000), Ok(12345));
    assert_eq!(convert_cpu_to_usize("b", "0", 1000), Err(CpuParserError::ConversionError));
}

#[test]
fn absent_groups_stand_for_zero() {
    assert_eq!(extract_number(&None), "0");
    assert_eq!(extract_number(&Some(String::from("42"))), "42");
    assert_eq!(extract_number(&Some(String::new())), "");
}

#[test]
fn digits_have_their_values() {
    for (i, c) in "0123456789".chars().enumerate() {
        assert_eq!(digit_of(c), Some(i as u8));
    }
    for c in ['/', ':', 'a', ' ', '+', '-', '.', '\u{663}', '\u{ff11}', '\u{b2}'] {
        assert_eq!(digit_of(c), None, "{c}");
    }
}

#[test]
fn whole_values_are_read_up_to_64_bits() {
    let digits: Vec<char> = "x0123".chars().collect();
    assert_eq!(whole_value(&digits, 1), Some((123, false)));
    assert_eq!(whole_value(&digits, 5), Some((0, false)));
    assert_eq!(whole_value(&digits, 0), None);
    let largest: Vec<char> = "18446744073709551615".chars().collect();
    assert_eq!(whole_value(&largest, 0), Some((u64::MAX, false)));
    let beyond: Vec<char> = "18446744073709551616".chars().collect();
    assert!(matches!(whole_value(&beyond, 0), Some((_, true))));
    let far_beyond: Vec<char> = "9".repeat(200).chars().collect();
    assert!(matches!(whole_value(&far_beyond, 0), Some((_, true))));
    let broken: Vec<char> = "12a4".chars().collect();
    assert_eq!(whole_value(&broken, 0), None);
}

#[test]
fn fractions_are_scaled_without_losing_a_digit() {
    let scaled = |text: &str, scale: u32| scale_fraction(&text.chars().collect(), scale);
    assert_eq!(scaled("", 1024), Some((0, true)));
    assert_eq!(scaled("5", 1024), Some((512, true)));
    assert_eq!(scaled("1", 1024), Some((102, false)));
    assert_eq!(scaled("0009765625", 1024), Some((1, true)));
    assert_eq!(scaled("00097656250000000000000000000000001", 1024), Some((1, false)));
    assert_eq!(scaled("00097656249999999999999999999999999", 1024), Some((0, false)));
    assert_eq!(scaled("999999999999999999999999999999", u32::MAX), Some((4294967294, false)));
    assert_eq!(scaled("5", 0), Some((0, true)));
    assert_eq!(scaled("5x", 10), None);
}

fn exact(whole: u128, fraction: &str, scale: u128, round_up: bool) -> usize {
    let denominator = 10u128.pow(fraction.len() as u32);
    let fraction_value = if fraction.is_empty() { 0 } else { fraction.parse::<u128>().unwrap() };
    let numerator = (whole * denominator + fraction_value) * scale;
    let mut value = numerator / denominator;
    if round_up && numerator % denominator != 0 {
        value += 1;
    }
    usize::try_from(value).unwrap_or(usize::MAX)
}

#[test]
fn scaling_agrees_with_exact_arithmetic() {
    let wholes = ["", "0", "1", "7", "12", "999", "1024", "4294967295", "18446744073709551615"];
    let fractions = ["", "0", "1", "5", "25", "333", "0001", "9999999", "0009765625", "123456789012"];
    let scales = [0u32, 1, 3, 7, 10, 1000, 1024, 1_000_000, 1_048_576, 1_000_000_000, 1_073_741_824, u32::MAX];
    for whole in wholes {
        for fraction in fractions {
            for scale in scales {
                for round_up in [false, true] {
                    let whole_value = if whole.is_empty() { 0 } else { whole.parse::<u128>().unwrap() };
                    assert_eq!(
                        scale_decimal(whole, fraction, scale, round_up),
                        Some(exact(whole_value, fraction, scale as u128, round_up)),
                        "{whole}.{fraction} x {scale} up {round_up}"
                    );
                }
            }
        }
    }
}

#[test]
fn scaling_needs_digits_only() {
    assert_eq!(scale_decimal("1", "5", 1024, true), Some(1536));
    assert_eq!(scale_decimal("1 ", "5", 1024, true), None);
    assert_eq!(scale_decimal("1", "5 ", 1024, true), None);
    assert_eq!(scale_decimal("+1", "5", 1024, true), None);
    assert_eq!(scale_decimal("1", "-5", 1024, false), None);
    assert_eq!(scale_decimal("\u{663}", "", 1, false), None);
}

#[test]
fn plain_integers_are_read_as_the_standard_library_reads_them() {
    let texts = [
        "", "0", "8", "+8", "+", "++8", "-0", "-8", " 8", "8 ", "1_000", "007", "+007", "4.0", "4e2",
        "0x10", "18446744073709551615", "18446744073709551616", "+18446744073709551615",
        "99999999999999999999999999999", "\u{663}", "1\u{663}", "١٢٣", "12a", "a12", "+-1",
        "000000000000000000000000000000000000000000017",
    ];
    for text in texts {
        assert_eq!(parse_plain_integer(text), text.parse::<usize>().ok(), "{text:?}");
    }
    assert_eq!(parse_plain_integer("96"), Some(96));
    assert_eq!(parse_plain_integer("+7"), Some(7));
    assert_eq!(parse_plain_integer("18446744073709551615"), Some(usize::MAX));
    assert_eq!(parse_plain_integer("18446744073709551616"), None);
}

#[test]
fn white_space_is_removed_wherever_it_stands() {
    assert_eq!(remove_whitespace(" 2 Ki B "), "2KiB");
    assert_eq!(remove_whitespace("\t\n\r\u{b}\u{c}x\u{85}\u{a0}y\u{1680}\u{2028}\u{3000}"), "xy");
    assert_eq!(remove_whitespace(""), "");
    assert_eq!(remove_whitespace("a\u{200b}b"), "a\u{200b}b");
    assert_eq!(remove_whitespace("über 9"), "über9");
}

#[test]
fn texts_are_compared_by_their_characters() {
    assert!(same_text("Linux", "Linux"));
    assert!(!same_text("Linux", "linux"));
    assert!(!same_text("Linux", "Linux "));
    assert!(same_text("", ""));
    assert_eq!(chars_of("aé漢"), vec!['a', 'é', '漢']);
    assert_eq!(chars_of(""), Vec::<char>::new());
}

fn groups(found: Option<QuantityCaptures>) -> Option<(Option<String>, Option<String>, Option<String>)> {
    found.map(|found| (found.number, found.decimal, found.unit))
}

fn some(text: &str) -> Option<String> {
    Some(text.to_string())
}

#[test]
fn the_memory_pattern_captures_number_decimal_and_unit() {
    assert_eq!(groups(match_quantity(MEMORY_PATTERN, "1.5KiB")), Some((some("1"), some("5"), some("KiB"))));
    assert_eq!(groups(match_quantity(MEMORY_PATTERN, "12Ki")), Some((some("12"), None, some("Ki"))));
    assert_eq!(groups(match_quantity(MEMORY_PATTERN, "2.G")), Some((some("2"), None, some("G"))));
    assert_eq!(groups(match_quantity(MEMORY_PATTERN, ".5M")), Some((None, some("5"), some("M"))));
    assert_eq!(groups(match_quantity(MEMORY_PATTERN, "k")), Some((None, None, some("k"))));
    assert_eq!(groups(match_quantity(MEMORY_PATTERN, "\u{663}Mi")), Some((some("\u{663}"), None, some("Mi"))));
    for text in ["", "1.5", "1.5 KiB", "1.5KiB ", "KiB1", "1.5.5k", "1KiBk", "1x", "1\nk"] {
        assert_eq!(groups(match_quantity(MEMORY_PATTERN, text)), None, "{text:?}");
    }
}

#[test]
fn the_cpu_pattern_captures_number_decimal_and_unit() {
    assert_eq!(groups(match_quantity(CPU_PATTERN, "1.5m")), Some((some("1"), some("5"), some("m"))));
    assert_eq!(groups(match_quantity(CPU_PATTERN, "12")), Some((some("12"), None, None)));
    assert_eq!(groups(match_quantity(CPU_PATTERN, "")), Some((None, None, None)));
    assert_eq!(groups(match_quantity(CPU_PATTERN, ".")), Some((None, None, None)));
    assert_eq!(groups(match_quantity(CPU_PATTERN, ".5")), Some((None, some("5"), None)));
    for text in ["1.5 m", "m1", "1mm", "1.5.5", "1M", " "] {
        assert_eq!(groups(match_quantity(CPU_PATTERN, text)), None, "{text:?}");
    }
}

#[test]
fn a_pattern_that_does_not_compile_matches_nothing() {
    assert_eq!(groups(match_quantity("(?P<number>", "1")), None);
    assert_eq!(groups(match_quantity("(?P<number>\\d+)(?P<unit>k)", "12k")), Some((some("12"), None, some("k"))));
}

#[test]
fn groups_that_do_not_spell_the_text_are_no_match() {
    assert_eq!(groups(match_quantity("(?P<number>\\d+)", "x12k")), None);
    assert_eq!(groups(match_quantity("^(?P<unit>k)(?P<number>\\d+)$", "k12")), None);
    assert_eq!(groups(match_quantity("^(?P<number>\\d)(?P<decimal>\\d)(?P<unit>k)$", "12k")), None);
    assert!(spells_text(&captures(Some("1"), Some("5"), Some("KiB")), "1.5KiB"));
    assert!(spells_text(&captures(Some("1"), None, Some("KiB")), "1.KiB"));
    assert!(spells_text(&captures(Some("1"), None, Some("KiB")), "1KiB"));
    assert!(spells_text(&captures(None, None, None), ""));
    assert!(spells_text(&captures(None, None, None), "."));
    assert!(!spells_text(&captures(Some("1"), Some("5"), Some("KiB")), "15KiB"));
    assert!(!spells_text(&captures(Some("1"), Some("5"), Some("KiB")), "1.5 KiB"));
    assert!(!spells_text(&captures(Some("1"), None, Some("KiB")), "1..KiB"));
    assert!(!spells_text(&captures(Some("1"), None, None), "1m"));
}

#[test]
fn white_space_is_what_the_unicode_property_says() {
    let listed = |c: char| {
        matches!(
            c,
            '\u{9}'..='\u{d}'
                | ' '
                | '\u{85}'
                | '\u{a0}'
                | '\u{1680}'
                | '\u{2000}'..='\u{200a}'
                | '\u{2028}'
                | '\u{2029}'
                | '\u{202f}'
                | '\u{205f}'
                | '\u{3000}'
        )
    };
    let mut white = 0;
    for code in 0..=0x10ffffu32 {
        if let Some(c) = char::from_u32(code) {
            assert_eq!(c.is_whitespace(), listed(c), "{code:#x}");
            let text = format!("a{c}b");
            assert_eq!(remove_whitespace(&text) == "ab", listed(c), "{code:#x}");
            if listed(c) {
                white += 1;
            }
        }
    }
    assert_eq!(white, 25);
}
