//! The way a quantity is written: digits, an optional point with digits
//! after it, and a unit.

use crate::utils::parsers::decimal::{all_digits, is_digit};
use vstd::prelude::*;

verus! {

/// How many digits a text begins with.
pub open spec fn digit_run(text: Seq<char>) -> nat
    decreases text.len(),
{
    if text.len() > 0 && is_digit(text[0]) {
        1 + digit_run(text.drop_first())
    } else {
        0
    }
}

/// The three parts of a written quantity.
pub struct Written {
    /// The digits before the point.
    pub whole: Seq<char>,
    /// The digits after the point.
    pub fraction: Seq<char>,
    /// What follows the number.
    pub unit: Seq<char>,
}

/// The parts that a text falls into: the digits that it begins with; then,
/// if a point follows, the digits after the point; then all the rest, as the
/// unit. Every text falls into parts in exactly this one way.
pub open spec fn written(text: Seq<char>) -> Written {
    let whole = digit_run(text);
    let rest = text.skip(whole as int);
    if rest.len() > 0 && rest[0] == '.' {
        let after = rest.skip(1);
        let fraction = digit_run(after);
        Written {
            whole: text.take(whole as int),
            fraction: after.take(fraction as int),
            unit: after.skip(fraction as int),
        }
    } else {
        Written { whole: text.take(whole as int), fraction: Seq::empty(), unit: rest }
    }
}

/// Digits followed by something that does not begin with a digit are the
/// digits that the whole begins with.
pub proof fn lemma_digit_run(digits: Seq<char>, rest: Seq<char>)
    requires
        all_digits(digits),
        rest.len() == 0 || !is_digit(rest[0]),
    ensures
        digit_run(digits + rest) == digits.len(),
    decreases digits.len(),
{
    let text = digits + rest;
    if digits.len() == 0 {
        assert(text =~= rest);
    } else {
        assert(text[0] == digits[0]);
        assert(text.drop_first() =~= digits.drop_first() + rest);
        assert forall|i: int| 0 <= i < digits.drop_first().len() implies is_digit(
            #[trigger] digits.drop_first()[i],
        ) by {
            assert(digits.drop_first()[i] == digits[i + 1]);
        }
        lemma_digit_run(digits.drop_first(), rest);
    }
}

/// A text put together from digits and a unit falls into these parts again.
pub proof fn lemma_written_plainly(whole: Seq<char>, unit: Seq<char>)
    requires
        all_digits(whole),
        unit.len() == 0 || (!is_digit(unit[0]) && unit[0] != '.'),
    ensures
        written(whole + unit) == (Written { whole, fraction: Seq::empty(), unit }),
{
    let text = whole + unit;
    lemma_digit_run(whole, unit);
    assert(text.take(whole.len() as int) =~= whole);
    assert(text.skip(whole.len() as int) =~= unit);
}

/// A text put together from digits, a point, digits and a unit falls into
/// these parts again.
pub proof fn lemma_written_with_point(whole: Seq<char>, fraction: Seq<char>, unit: Seq<char>)
    requires
        all_digits(whole),
        all_digits(fraction),
        unit.len() == 0 || !is_digit(unit[0]),
    ensures
        written(whole + seq!['.'] + fraction + unit) == (Written { whole, fraction, unit }),
{
    let text = whole + seq!['.'] + fraction + unit;
    let rest = seq!['.'] + fraction + unit;
    assert(text =~= whole + rest);
    assert(rest[0] == '.');
    lemma_digit_run(whole, rest);
    assert(text.take(whole.len() as int) =~= whole);
    assert(text.skip(whole.len() as int) =~= rest);
    let after = rest.skip(1);
    assert(after =~= fraction + unit);
    lemma_digit_run(fraction, unit);
    assert(after.take(fraction.len() as int) =~= fraction);
    assert(after.skip(fraction.len() as int) =~= unit);
}

} // verus!
