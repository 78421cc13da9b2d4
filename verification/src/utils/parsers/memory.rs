//! Memory quantities such as `"1.5 GiB"`, in bytes.

use crate::utils::parsers::decimal;
use crate::utils::parsers::grammar;
use crate::utils::parsers::pattern;
use crate::utils::parsers::pattern::QuantityCaptures;
use crate::utils::parsers::text;
use vstd::prelude::*;

verus! {

/// The pattern of a memory quantity: digits, an optional point, digits, and
/// one of the units, over the whole text.
pub const MEMORY_PATTERN: &'static str =
    r#"(?x)
      ^(?P<number>\d+)*                           # Number
      [.]?
      (?P<decimal>\d+)*                           # Decimal
      (?P<unit>KiB|Ki|k|MiB|Mi|M|GiB|Gi|G)$       # Unit"#;

/// Why a memory quantity was not understood.
#[derive(Debug, PartialEq, Eq, Clone, Copy)]
pub enum MemoryParserError {
    /// The text is no memory quantity: the pattern does not match it, or its
    /// unit is unknown.
    InvalidInput,
    /// The text has the shape of a quantity, but its digits cannot be read as
    /// a number.
    ConversionError,
}

/// How many bytes one of a unit is: powers of 1000 for `k`, `M`, `G`, powers
/// of 1024 for `Ki`, `Mi`, `Gi` and their `..B` forms. `None` for any other text.
pub open spec fn unit_scale(unit: Seq<char>) -> Option<u32> {
    if unit == "k"@ {
        Some(1000u32)
    } else if unit == "Ki"@ || unit == "KiB"@ {
        Some(1024u32)
    } else if unit == "M"@ {
        Some(1000000u32)
    } else if unit == "Mi"@ || unit == "MiB"@ {
        Some(1048576u32)
    } else if unit == "G"@ {
        Some(1000000000u32)
    } else if unit == "Gi"@ || unit == "GiB"@ {
        Some(1073741824u32)
    } else {
        None
    }
}

/// The bytes that `number.decimal` of a unit of `scale` bytes come to:
/// rounded up to a whole byte, and the largest `usize` where they are more.
/// `ConversionError` where either part holds anything but ASCII digits.
pub open spec fn converted_memory(number: Seq<char>, decimal: Seq<char>, scale: u32) -> Result<
    usize,
    MemoryParserError,
> {
    if decimal::all_digits(number) && decimal::all_digits(decimal) {
        Ok(decimal::saturate(decimal::scaled_ceiling(number, decimal, scale as nat)))
    } else {
        Err(MemoryParserError::ConversionError)
    }
}

/// The bytes that the groups of a match stand for. `InvalidInput` where the
/// unit is absent or unknown; else as [`converted_memory`], an absent number
/// or decimal part counting as `"0"`.
pub open spec fn memory_of_captures(groups: pattern::QuantityCapturesView) -> Result<
    usize,
    MemoryParserError,
> {
    match groups.unit {
        None => Err(MemoryParserError::InvalidInput),
        Some(unit) => match unit_scale(unit) {
            None => Err(MemoryParserError::InvalidInput),
            Some(scale) => converted_memory(
                pattern::number_text(groups.number),
                pattern::number_text(groups.decimal),
                scale,
            ),
        },
    }
}

/// The bytes that a text stands for: white space is dropped, the rest is
/// matched against [`MEMORY_PATTERN`], and the match is read as
/// [`memory_of_captures`] says. `InvalidInput` where there is no match.
pub open spec fn memory_in_bytes(input: Seq<char>) -> Result<usize, MemoryParserError> {
    match pattern::quantity_match(MEMORY_PATTERN@, text::without_whitespace(input)) {
        None => Err(MemoryParserError::InvalidInput),
        Some(groups) => memory_of_captures(groups),
    }
}

/// The bytes that a text writes, white space apart: it falls into digits,
/// an optional point with digits after it, and a unit; where the unit is
/// one of the known units, the number times the unit's scale, rounded up, is
/// what it writes. A text with any other unit writes nothing.
pub open spec fn written_memory(text: Seq<char>) -> Option<usize> {
    let parts = grammar::written(text);
    match unit_scale(parts.unit) {
        Some(scale) => Some(
            decimal::saturate(decimal::scaled_ceiling(parts.whole, parts.fraction, scale as nat)),
        ),
        None => None,
    }
}

/// A known unit begins with a letter.
proof fn lemma_unit_begins_with_a_letter(unit: Seq<char>)
    requires
        unit_scale(unit) is Some,
    ensures
        unit.len() > 0,
        !decimal::is_digit(unit[0]),
        unit[0] != '.',
{
    reveal_strlit("k");
    reveal_strlit("Ki");
    reveal_strlit("KiB");
    reveal_strlit("M");
    reveal_strlit("Mi");
    reveal_strlit("MiB");
    reveal_strlit("G");
    reveal_strlit("Gi");
    reveal_strlit("GiB");
}

/// The grammar of memory quantities: a text is given a number of bytes only
/// if, white space apart, it is digits, an optional point with digits after
/// it, and one of the known units, and then the number is that quantity in
/// bytes, rounded up.
pub proof fn lemma_memory_grammar(input: Seq<char>)
    ensures
        memory_in_bytes(input) matches Ok(bytes) ==> written_memory(
            text::without_whitespace(input),
        ) == Some(bytes),
{
    if memory_in_bytes(input) is Ok {
        let normalized = text::without_whitespace(input);
        let groups = pattern::quantity_match(MEMORY_PATTERN@, normalized)->0;
        let whole = pattern::group_text(groups.number);
        let fraction = pattern::group_text(groups.decimal);
        let unit = groups.unit->0;
        let scale = unit_scale(unit)->0;
        decimal::lemma_absent_is_zero(groups.number, groups.decimal, scale as nat);
        lemma_unit_begins_with_a_letter(unit);
        reveal_strlit(".");
        assert("."@ =~= seq!['.']);
        if normalized == whole + "."@ + fraction + unit {
            grammar::lemma_written_with_point(whole, fraction, unit);
        } else {
            grammar::lemma_written_plainly(whole, unit);
        }
    }
}

/// The scale of a unit, see [`unit_scale`].
pub fn lookup_unit_scale(unit: &str) -> (scale: Option<u32>)
    ensures
        scale == unit_scale(unit@),
{
    if text::same_text(unit, "k") {
        Some(1000)
    } else if text::same_text(unit, "Ki") || text::same_text(unit, "KiB") {
        Some(1024)
    } else if text::same_text(unit, "M") {
        Some(1000000)
    } else if text::same_text(unit, "Mi") || text::same_text(unit, "MiB") {
        Some(1048576)
    } else if text::same_text(unit, "G") {
        Some(1000000000)
    } else if text::same_text(unit, "Gi") || text::same_text(unit, "GiB") {
        Some(1073741824)
    } else {
        None
    }
}

/// `number.decimal` units of `unit_scale` bytes each, in bytes.
pub fn convert_memory_to_usize(number: &str, decimal: &str, unit_scale: u32) -> (bytes: Result<
    usize,
    MemoryParserError,
>)
    ensures
        bytes == converted_memory(number@, decimal@, unit_scale),
{
    match decimal::scale_decimal(number, decimal, unit_scale, true) {
        Some(value) => Ok(value),
        None => Err(MemoryParserError::ConversionError),
    }
}

/// The bytes that the groups of a match stand for.
pub fn extract_memory_in_bytes(captures: &QuantityCaptures) -> (bytes: Result<
    usize,
    MemoryParserError,
>)
    ensures
        bytes == memory_of_captures(captures@),
{
    let scale = match &captures.unit {
        None => {
            return Err(MemoryParserError::InvalidInput);
        },
        Some(unit) => match lookup_unit_scale(unit.as_str()) {
            None => {
                return Err(MemoryParserError::InvalidInput);
            },
            Some(scale) => scale,
        },
    };
    let number = pattern::extract_number(&captures.number);
    let decimal = pattern::extract_number(&captures.decimal);
    convert_memory_to_usize(number.as_str(), decimal.as_str(), scale)
}

/// Reads a memory quantity such as `"2 KiB"` or `".5 G"` and gives it in
/// bytes, rounded up to a whole byte.
///
/// Which texts are quantities is for the pattern to say; a text that is
/// given a number of bytes is written as the grammar has it, and the number
/// is what it writes.
pub fn parse_memory_in_bytes(input: &str) -> (bytes: Result<usize, MemoryParserError>)
    ensures
        bytes == memory_in_bytes(input@),
        bytes matches Ok(n) ==> written_memory(text::without_whitespace(input@)) == Some(n),
{
    proof {
        lemma_memory_grammar(input@);
    }
    let normalized_input = text::remove_whitespace(input);
    match pattern::match_quantity(MEMORY_PATTERN, normalized_input.as_str()) {
        None => Err(MemoryParserError::InvalidInput),
        Some(captures) => extract_memory_in_bytes(&captures),
    }
}

} // verus!
