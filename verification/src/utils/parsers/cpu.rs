//! CPU quantities such as `"500m"` or `"2.5"`, in millicores.

use crate::utils::parsers::decimal;
use crate::utils::parsers::grammar;
use crate::utils::parsers::pattern;
use crate::utils::parsers::pattern::QuantityCaptures;
use crate::utils::parsers::text;
use vstd::prelude::*;

verus! {

/// The pattern of a CPU quantity: digits, an optional point, digits, and an
/// optional `m`, over the whole text.
pub const CPU_PATTERN: &'static str =
    r#"(?x)
      ^(?P<number>\d+)*                           # Number
      [.]?
      (?P<decimal>\d+)*                           # Decimal
      (?P<unit>m)?$       # Unit"#;

/// Millicores in one core.
pub const MILLICORES_PER_CORE: u32 = 1000;

/// The unit of a quantity in millicores.
pub const MILLICORE_UNIT: &'static str = "m";

/// Why a CPU quantity was not understood.
#[derive(Debug, PartialEq, Eq, Clone, Copy)]
pub enum CpuParserError {
    /// The text is no CPU quantity: the pattern does not match it.
    InvalidInput,
    /// The text has the shape of a quantity, but its digits cannot be read as
    /// a number.
    ConversionError,
}

/// By how much the number is multiplied: by one where a unit was given (the
/// number is in millicores already), by 1000 where none was (it is in cores).
pub open spec fn cpu_scale(unit: Option<Seq<char>>) -> u32 {
    match unit {
        Some(_) => 1u32,
        None => MILLICORES_PER_CORE,
    }
}

/// `number.decimal × scale`, cut to a whole number, and the largest `usize`
/// where it is more. `ConversionError` where either part holds anything but
/// ASCII digits.
pub open spec fn converted_cpu(number: Seq<char>, decimal: Seq<char>, scale: u32) -> Result<
    usize,
    CpuParserError,
> {
    if decimal::all_digits(number) && decimal::all_digits(decimal) {
        Ok(decimal::saturate(decimal::scaled_floor(number, decimal, scale as nat)))
    } else {
        Err(CpuParserError::ConversionError)
    }
}

/// The millicores that the groups of a match stand for, an absent number or
/// decimal part counting as `"0"`.
pub open spec fn cpu_of_captures(groups: pattern::QuantityCapturesView) -> Result<
    usize,
    CpuParserError,
> {
    converted_cpu(
        pattern::number_text(groups.number),
        pattern::number_text(groups.decimal),
        cpu_scale(groups.unit),
    )
}

/// The millicores that a text stands for: white space is dropped, the rest
/// is matched against [`CPU_PATTERN`], and the match is read as
/// [`cpu_of_captures`] says. `InvalidInput` where there is no match, or one
/// with another unit than `m`.
pub open spec fn cpu_in_millicores(input: Seq<char>) -> Result<usize, CpuParserError> {
    match pattern::quantity_match(CPU_PATTERN@, text::without_whitespace(input)) {
        None => Err(CpuParserError::InvalidInput),
        Some(groups) => if is_cpu_unit(groups.unit) {
            cpu_of_captures(groups)
        } else {
            Err(CpuParserError::InvalidInput)
        },
    }
}

/// The unit of a CPU quantity: none, or `m`.
pub open spec fn is_cpu_unit(unit: Option<Seq<char>>) -> bool {
    match unit {
        Some(text) => text == MILLICORE_UNIT@,
        None => true,
    }
}

/// The millicores that a text writes, white space apart: it falls into
/// digits, an optional point with digits after it, and a unit; without a
/// unit the number is in cores and a thousand times it is what the text
/// writes, with the unit `m` the number itself is, each cut to a whole
/// number. A text with any other unit writes nothing.
pub open spec fn written_cpu(text: Seq<char>) -> Option<usize> {
    let parts = grammar::written(text);
    if parts.unit.len() == 0 {
        Some(
            decimal::saturate(
                decimal::scaled_floor(parts.whole, parts.fraction, MILLICORES_PER_CORE as nat),
            ),
        )
    } else if parts.unit == MILLICORE_UNIT@ {
        Some(decimal::saturate(decimal::scaled_floor(parts.whole, parts.fraction, 1)))
    } else {
        None
    }
}

/// The grammar of CPU quantities: a text is given a number of millicores
/// only if, white space apart, it is digits, an optional point with digits
/// after it, and then nothing or the unit `m`, and then the number is that
/// quantity in millicores, cut to a whole number.
pub proof fn lemma_cpu_grammar(input: Seq<char>)
    ensures
        cpu_in_millicores(input) matches Ok(millicores) ==> written_cpu(
            text::without_whitespace(input),
        ) == Some(millicores),
{
    if cpu_in_millicores(input) is Ok {
        let normalized = text::without_whitespace(input);
        let groups = pattern::quantity_match(CPU_PATTERN@, normalized)->0;
        let whole = pattern::group_text(groups.number);
        let fraction = pattern::group_text(groups.decimal);
        let unit = pattern::group_text(groups.unit);
        decimal::lemma_absent_is_zero(groups.number, groups.decimal, cpu_scale(groups.unit) as nat);
        reveal_strlit("m");
        reveal_strlit(".");
        assert("."@ =~= seq!['.']);
        assert(unit.len() == 0 || unit =~= seq!['m']);
        if normalized == whole + "."@ + fraction + unit {
            grammar::lemma_written_with_point(whole, fraction, unit);
        } else {
            grammar::lemma_written_plainly(whole, unit);
        }
    }
}

/// `number.decimal × unit_scale`, cut to a whole number.
pub fn convert_cpu_to_usize(number: &str, decimal: &str, unit_scale: u32) -> (millicores: Result<
    usize,
    CpuParserError,
>)
    ensures
        millicores == converted_cpu(number@, decimal@, unit_scale),
{
    match decimal::scale_decimal(number, decimal, unit_scale, false) {
        Some(value) => Ok(value),
        None => Err(CpuParserError::ConversionError),
    }
}

/// The millicores that the groups of a match stand for.
pub fn extract_cpu(captures: &QuantityCaptures) -> (millicores: Result<usize, CpuParserError>)
    ensures
        millicores == cpu_of_captures(captures@),
{
    let number = pattern::extract_number(&captures.number);
    let decimal = pattern::extract_number(&captures.decimal);
    match &captures.unit {
        Some(_) => convert_cpu_to_usize(number.as_str(), decimal.as_str(), 1),
        None => convert_cpu_to_usize(number.as_str(), decimal.as_str(), MILLICORES_PER_CORE),
    }
}

/// Reads a CPU quantity, in cores (`"2"`, `"0.5"`) or in millicores
/// (`"500m"`), and gives it in millicores, cut to a whole number.
///
/// Which texts are quantities is for the pattern to say; a text that is
/// given a number of millicores is written as the grammar has it, and the
/// number is what it writes.
pub fn parse_cpu(input: &str) -> (millicores: Result<usize, CpuParserError>)
    ensures
        millicores == cpu_in_millicores(input@),
        millicores matches Ok(n) ==> written_cpu(text::without_whitespace(input@)) == Some(n),
{
    proof {
        lemma_cpu_grammar(input@);
    }
    let normalized_input = text::remove_whitespace(input);
    match pattern::match_quantity(CPU_PATTERN, normalized_input.as_str()) {
        None => Err(CpuParserError::InvalidInput),
        Some(captures) => {
            let known = match &captures.unit {
                Some(unit) => text::same_text(unit.as_str(), MILLICORE_UNIT),
                None => true,
            };
            if known {
                extract_cpu(&captures)
            } else {
                Err(CpuParserError::InvalidInput)
            }
        },
    }
}

} // verus!
