//! Matching a quantity against its pattern.
//!
//! A quantity is matched by a regular expression with three named groups:
//! `number` (the digits before the point), `decimal` (the digits after it)
//! and `unit`. Matching is the work of the `regex` crate; what is made of the
//! groups is decided in this library.

use regex::Regex;
use vstd::prelude::*;

verus! {

/// The text of the named groups `number`, `decimal` and `unit` in one match.
/// A group that took no part in the match is `None`.
#[derive(Debug)]
pub struct QuantityCaptures {
    pub number: Option<String>,
    pub decimal: Option<String>,
    pub unit: Option<String>,
}

/// The characters held by a [`QuantityCaptures`].
pub struct QuantityCapturesView {
    pub number: Option<Seq<char>>,
    pub decimal: Option<Seq<char>>,
    pub unit: Option<Seq<char>>,
}

/// The characters of an optional text.
pub open spec fn text_view(text: Option<String>) -> Option<Seq<char>> {
    match text {
        Some(t) => Some(t@),
        None => None,
    }
}

impl View for QuantityCaptures {
    type V = QuantityCapturesView;

    open spec fn view(&self) -> QuantityCapturesView {
        QuantityCapturesView {
            number: text_view(self.number),
            decimal: text_view(self.decimal),
            unit: text_view(self.unit),
        }
    }
}

/// The characters of an optional match.
pub open spec fn captures_view(found: Option<QuantityCaptures>) -> Option<QuantityCapturesView> {
    match found {
        Some(groups) => Some(groups@),
        None => None,
    }
}

/// What the regular expression `pattern` captures in `haystack`: the groups
/// named `number`, `decimal` and `unit` of its first match, or `None` where
/// the expression does not compile or matches nowhere.
pub uninterp spec fn pattern_captures(pattern: Seq<char>, haystack: Seq<char>) -> Option<
    QuantityCapturesView,
>;

/// Compiles `pattern` with `regex::Regex::new`, searches `haystack` with
/// `Regex::captures` and copies out the three named groups.
///
/// Nothing is claimed of the match but that it depends on the pattern and on
/// the text alone.
#[verifier::external_body]
pub(crate) fn capture_quantity(pattern: &str, haystack: &str) -> (found: Option<QuantityCaptures>)
    ensures
        captures_view(found) == pattern_captures(pattern@, haystack@),
{
    let groups = Regex::new(pattern).ok()?.captures(haystack)?;
    Some(
        QuantityCaptures {
            number: groups.name("number").map(|m| m.as_str().to_string()),
            decimal: groups.name("decimal").map(|m| m.as_str().to_string()),
            unit: groups.name("unit").map(|m| m.as_str().to_string()),
        },
    )
}

/// The text of a group, and no text where the group took no part in the
/// match.
pub open spec fn group_text(group: Option<Seq<char>>) -> Seq<char> {
    match group {
        Some(text) => text,
        None => Seq::empty(),
    }
}

/// Whether the groups spell `text` and nothing else: the number and the
/// unit, or the number, a point, the decimal part and the unit.
pub open spec fn spells(groups: QuantityCapturesView, text: Seq<char>) -> bool {
    let number = group_text(groups.number);
    let decimal = group_text(groups.decimal);
    let unit = group_text(groups.unit);
    (decimal.len() == 0 && text == number + unit) || text == number + "."@ + decimal + unit
}

/// The match of `pattern` on `text` as this library takes it: the groups
/// that the regular expression captures, where they spell the text.
pub open spec fn quantity_match(pattern: Seq<char>, text: Seq<char>) -> Option<
    QuantityCapturesView,
> {
    match pattern_captures(pattern, text) {
        Some(groups) => if spells(groups, text) {
            Some(groups)
        } else {
            None
        },
        None => None,
    }
}

/// The text of a group, see [`group_text`].
fn text_of(group: &Option<String>) -> (text: &str)
    ensures
        text@ == group_text(text_view(*group)),
{
    match group {
        Some(text) => text.as_str(),
        None => {
            proof {
                reveal_strlit("");
            }
            ""
        },
    }
}

/// Whether the groups spell `text`, see [`spells`].
pub fn spells_text(groups: &QuantityCaptures, text: &str) -> (spelled: bool)
    ensures
        spelled == spells(groups@, text@),
{
    let number = text_of(&groups.number);
    let decimal = text_of(&groups.decimal);
    let unit = text_of(&groups.unit);
    let pointed = String::from_str(number).concat(".").concat(decimal).concat(unit);
    if crate::utils::parsers::text::same_text(pointed.as_str(), text) {
        return true;
    }
    if decimal.unicode_len() > 0 {
        return false;
    }
    let plain = String::from_str(number).concat(unit);
    crate::utils::parsers::text::same_text(plain.as_str(), text)
}

/// Matches `text` against `pattern`, see [`quantity_match`].
pub fn match_quantity(pattern: &str, text: &str) -> (found: Option<QuantityCaptures>)
    ensures
        captures_view(found) == quantity_match(pattern@, text@),
{
    match capture_quantity(pattern, text) {
        Some(groups) => {
            if spells_text(&groups, text) {
                Some(groups)
            } else {
                None
            }
        },
        None => None,
    }
}

/// The digits that a group stands for: its text, or `"0"` where the group
/// took no part in the match.
pub open spec fn number_text(group: Option<Seq<char>>) -> Seq<char> {
    match group {
        Some(text) => text,
        None => "0"@,
    }
}

/// The digits that a group stands for, see [`number_text`].
pub fn extract_number(group: &Option<String>) -> (digits: String)
    ensures
        digits@ == number_text(text_view(*group)),
{
    match group {
        Some(text) => text.clone(),
        None => String::from_str("0"),
    }
}

} // verus!
