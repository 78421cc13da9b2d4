//! Exact arithmetic on decimal digit strings.
//!
//! A quantity is written as a whole part and a fractional part, both runs of
//! ASCII digits of any length. Scaling it by a unit factor and rounding to an
//! integer is done here without ever leaving the integers, so the result is
//! the mathematical one for every input, however many digits it has.

use vstd::prelude::*;

verus! {

/// An ASCII decimal digit.
pub open spec fn is_digit(c: char) -> bool {
    '0' <= c && c <= '9'
}

/// What a digit counts for. Meaningful where `is_digit(c)`.
pub open spec fn digit_value(c: char) -> nat {
    (c as int - '0' as int) as nat
}

/// Every character is an ASCII decimal digit. True of the empty text.
pub open spec fn all_digits(s: Seq<char>) -> bool {
    forall|i: int| 0 <= i < s.len() ==> is_digit(#[trigger] s[i])
}

/// The number that a run of digits writes in base ten. The empty run writes 0.
pub open spec fn decimal_value(s: Seq<char>) -> nat
    decreases s.len(),
{
    if s.len() == 0 {
        0
    } else {
        decimal_value(s.drop_last()) * 10 + digit_value(s.last())
    }
}

/// Ten to the power `n`.
pub open spec fn pow10(n: nat) -> nat
    decreases n,
{
    if n == 0 {
        1
    } else {
        10 * pow10((n - 1) as nat)
    }
}

/// `whole.fraction × scale` as a fraction over `pow10(fraction.len())`: its numerator.
pub open spec fn scaled_numerator(whole: Seq<char>, fraction: Seq<char>, scale: nat) -> nat {
    (decimal_value(whole) * pow10(fraction.len()) + decimal_value(fraction)) * scale
}

/// `whole.fraction × scale`, rounded towards zero.
pub open spec fn scaled_floor(whole: Seq<char>, fraction: Seq<char>, scale: nat) -> nat {
    scaled_numerator(whole, fraction, scale) / pow10(fraction.len())
}

/// Whether `whole.fraction × scale` is an integer.
pub open spec fn scaled_is_whole(whole: Seq<char>, fraction: Seq<char>, scale: nat) -> bool {
    scaled_numerator(whole, fraction, scale) % pow10(fraction.len()) == 0
}

/// `whole.fraction × scale`, rounded up to the next integer.
pub open spec fn scaled_ceiling(whole: Seq<char>, fraction: Seq<char>, scale: nat) -> nat {
    if scaled_is_whole(whole, fraction, scale) {
        scaled_floor(whole, fraction, scale)
    } else {
        scaled_floor(whole, fraction, scale) + 1
    }
}

/// `whole.fraction × scale` as an integer: rounded up when `round_up`, else
/// rounded towards zero.
pub open spec fn scaled_value(
    whole: Seq<char>,
    fraction: Seq<char>,
    scale: nat,
    round_up: bool,
) -> nat {
    if round_up {
        scaled_ceiling(whole, fraction, scale)
    } else {
        scaled_floor(whole, fraction, scale)
    }
}

/// `n` where it fits a `usize`, else the largest `usize`.
pub open spec fn saturate(n: nat) -> usize {
    if n > usize::MAX {
        usize::MAX
    } else {
        n as usize
    }
}

/// A power of ten is never zero.
pub proof fn lemma_pow10_positive(n: nat)
    ensures
        pow10(n) > 0,
    decreases n,
{
    if n > 0 {
        lemma_pow10_positive((n - 1) as nat);
    }
}

/// Reading a run of digits from the left: the first digit counts for
/// `pow10` of the number of digits after it.
pub proof fn lemma_decimal_value_prepend(c: char, rest: Seq<char>)
    ensures
        decimal_value(seq![c] + rest) == digit_value(c) * pow10(rest.len()) + decimal_value(rest),
    decreases rest.len(),
{
    let whole = seq![c] + rest;
    assert(whole.len() == rest.len() + 1);
    if rest.len() == 0 {
        assert(whole.drop_last() =~= Seq::<char>::empty());
        assert(whole.last() == c);
        assert(decimal_value(whole) == decimal_value(whole.drop_last()) * 10 + digit_value(c));
        assert(digit_value(c) * pow10(rest.len()) == digit_value(c)) by (nonlinear_arith)
            requires
                pow10(rest.len()) == 1,
        ;
    } else {
        let shorter = rest.drop_last();
        assert(whole.drop_last() =~= seq![c] + shorter);
        assert(whole.last() == rest.last());
        lemma_decimal_value_prepend(c, shorter);
        let p = pow10(shorter.len()) as int;
        let d = digit_value(c) as int;
        let v = decimal_value(shorter) as int;
        let l = digit_value(rest.last()) as int;
        assert(pow10(rest.len()) == 10 * p);
        assert(decimal_value(whole) == (d * p + v) * 10 + l);
        assert((d * p + v) * 10 + l == d * (10 * p) + (v * 10 + l)) by (nonlinear_arith);
        assert(d * pow10(rest.len()) == d * (10 * p)) by (nonlinear_arith)
            requires
                pow10(rest.len()) == 10 * p,
        ;
    }
}

/// Dividing by ten after dividing ten times the number is dividing the number.
proof fn lemma_div_tenfold(a: int, p: int)
    requires
        0 <= a,
        0 < p,
    ensures
        ((10 * a) / p) / 10 == a / p,
        (a % p != 0) <==> ((10 * a) % p != 0 || ((10 * a) / p) % 10 != 0),
{
    let q = (10 * a) / p;
    let r = (10 * a) % p;
    vstd::arithmetic::div_mod::lemma_fundamental_div_mod(10 * a, p);
    vstd::arithmetic::div_mod::lemma_mod_bound(10 * a, p);
    assert(10 * a == p * q + r);
    assert(q >= 0) by {
        vstd::arithmetic::div_mod::lemma_div_pos_is_pos(10 * a, p);
    }
    let qq = q / 10;
    let qr = q % 10;
    assert(q == 10 * qq + qr && 0 <= qr < 10);
    // 10a = p(10 qq + qr) + r, so a = p qq + (p qr + r) / 10, and p qr + r is
    // a multiple of ten below 10 p.
    let rest = p * qr + r;
    assert(rest == 10 * a - 10 * (p * qq)) by (nonlinear_arith)
        requires
            10 * a == p * q + r,
            q == 10 * qq + qr,
            rest == p * qr + r,
    ;
    assert(0 <= rest < 10 * p) by (nonlinear_arith)
        requires
            rest == p * qr + r,
            0 <= qr < 10,
            0 <= r < p,
    ;
    let low = a - p * qq;
    assert(rest == 10 * low);
    assert(0 <= low < p);
    assert(a == qq * p + low) by (nonlinear_arith)
        requires
            low == a - p * qq,
    ;
    vstd::arithmetic::div_mod::lemma_fundamental_div_mod_converse(a, p, qq, low);
    assert(a / p == qq && a % p == low);
    if low == 0 {
        assert(p * qr + r == 0);
        assert(qr == 0 && r == 0) by (nonlinear_arith)
            requires
                p * qr + r == 0,
                0 < p,
                0 <= qr,
                0 <= r,
        ;
    } else {
        if qr == 0 && r == 0 {
            assert(p * qr + r == 0) by (nonlinear_arith)
                requires
                    qr == 0,
                    r == 0,
            ;
        }
    }
}

/// Splitting off a multiple of the divisor.
proof fn lemma_div_split(k: int, b: int, p: int)
    requires
        0 <= k,
        0 <= b,
        0 < p,
    ensures
        (k * p + b) / p == k + b / p,
        (k * p + b) % p == b % p,
{
    let q = b / p;
    let r = b % p;
    vstd::arithmetic::div_mod::lemma_fundamental_div_mod(b, p);
    vstd::arithmetic::div_mod::lemma_mod_bound(b, p);
    assert(k * p + b == (k + q) * p + r) by (nonlinear_arith)
        requires
            b == p * q + r,
    ;
    vstd::arithmetic::div_mod::lemma_fundamental_div_mod_converse(k * p + b, p, k + q, r);
}

/// One step of scaling a fraction from its last digit to its first.
///
/// `tail` is the part of the fraction already read and `c` the digit before
/// it. The running quotient is ten times the scaled tail, cut to an integer;
/// the step turns it into ten times the scaled `c tail`.
proof fn lemma_fraction_step(c: char, tail: Seq<char>, scale: int)
    requires
        0 <= scale,
    ensures
        ({
            let p = pow10(tail.len()) as int;
            let v = decimal_value(tail) as int;
            let longer = seq![c] + tail;
            let next_value = decimal_value(longer) as int;
            let next_power = pow10(longer.len()) as int;
            &&& (10 * scale * next_value) / next_power == digit_value(c) * scale + ((10 * scale * v) / p) / 10
            &&& ((10 * scale * next_value) % next_power != 0) <==> ((10 * scale * v) % p != 0 || ((10 * scale * v)
                / p) % 10 != 0)
        }),
{
    let p = pow10(tail.len()) as int;
    let v = decimal_value(tail) as int;
    let longer = seq![c] + tail;
    let next_value = decimal_value(longer) as int;
    let next_power = pow10(longer.len()) as int;
    let d = digit_value(c) as int;
    lemma_pow10_positive(tail.len());
    lemma_decimal_value_prepend(c, tail);
    assert(longer.len() == tail.len() + 1);
    assert(next_power == 10 * p);
    assert(next_value == d * p + v);
    let a = scale * v;
    assert(0 <= a) by (nonlinear_arith)
        requires
            a == scale * v,
            0 <= scale,
            0 <= v,
    ;
    assert(10 * scale * v == 10 * a) by (nonlinear_arith)
        requires
            a == scale * v,
    ;
    lemma_div_tenfold(a, p);
    // 10·scale·next_value = 10·(d·scale·p + a), over 10·p.
    let k = d * scale;
    assert(0 <= k) by (nonlinear_arith)
        requires
            k == d * scale,
            0 <= d,
            0 <= scale,
    ;
    let x = k * p + a;
    assert(10 * scale * next_value == 10 * x) by (nonlinear_arith)
        requires
            next_value == d * p + v,
            a == scale * v,
            k == d * scale,
            x == k * p + a,
    ;
    lemma_div_split(k, a, p);
    assert(x / p == k + a / p);
    assert(x % p == a % p);
    assert(0 <= x) by (nonlinear_arith)
        requires
            x == k * p + a,
            0 <= k,
            0 < p,
            0 <= a,
    ;
    // (10 x) / (10 p) = x / p and (10 x) % (10 p) = 10 (x % p).
    let q = x / p;
    let r = x % p;
    vstd::arithmetic::div_mod::lemma_fundamental_div_mod(x, p);
    vstd::arithmetic::div_mod::lemma_mod_bound(x, p);
    assert(10 * x == q * (10 * p) + 10 * r) by (nonlinear_arith)
        requires
            x == p * q + r,
    ;
    vstd::arithmetic::div_mod::lemma_fundamental_div_mod_converse(10 * x, 10 * p, q, 10 * r);
}

/// The whole part and the fraction scale apart.
proof fn lemma_scaled_parts(whole: Seq<char>, fraction: Seq<char>, scale: nat)
    ensures
        scaled_floor(whole, fraction, scale) == decimal_value(whole) * scale + (decimal_value(
            fraction,
        ) * scale) / pow10(fraction.len()),
        scaled_is_whole(whole, fraction, scale) <==> (decimal_value(fraction) * scale) % pow10(
            fraction.len(),
        ) == 0,
{
    let w = decimal_value(whole) as int;
    let f = decimal_value(fraction) as int;
    let p = pow10(fraction.len()) as int;
    let s = scale as int;
    lemma_pow10_positive(fraction.len());
    let k = w * s;
    let b = f * s;
    assert(0 <= k && 0 <= b) by (nonlinear_arith)
        requires
            k == w * s,
            b == f * s,
            0 <= w,
            0 <= f,
            0 <= s,
    ;
    assert((w * p + f) * s == k * p + b) by (nonlinear_arith)
        requires
            k == w * s,
            b == f * s,
    ;
    lemma_div_split(k, b, p);
}

/// A part that is absent counts as `"0"`, and `"0"` counts as nothing: the
/// value of a quantity is the same whether an absent part is read as `"0"`
/// or as no digits at all.
pub proof fn lemma_absent_is_zero(
    number: Option<Seq<char>>,
    decimal: Option<Seq<char>>,
    scale: nat,
)
    ensures
        ({
            let whole = crate::utils::parsers::pattern::group_text(number);
            let fraction = crate::utils::parsers::pattern::group_text(decimal);
            let written = crate::utils::parsers::pattern::number_text(number);
            let written_fraction = crate::utils::parsers::pattern::number_text(decimal);
            &&& all_digits(written) <==> all_digits(whole)
            &&& all_digits(written_fraction) <==> all_digits(fraction)
            &&& scaled_floor(written, written_fraction, scale) == scaled_floor(
                whole,
                fraction,
                scale,
            )
            &&& scaled_ceiling(written, written_fraction, scale) == scaled_ceiling(
                whole,
                fraction,
                scale,
            )
        }),
{
    reveal_strlit("0");
    let zero = "0"@;
    let none = Seq::<char>::empty();
    assert(zero.len() == 1 && zero[0] == '0');
    assert(all_digits(zero));
    assert(all_digits(none));
    assert(zero.drop_last() =~= none);
    assert(decimal_value(none) == 0);
    assert(decimal_value(zero) == 0);
    assert(pow10(0) == 1);
    assert(pow10(1) == 10);
    let whole = crate::utils::parsers::pattern::group_text(number);
    let fraction = crate::utils::parsers::pattern::group_text(decimal);
    let written = crate::utils::parsers::pattern::number_text(number);
    let written_fraction = crate::utils::parsers::pattern::number_text(decimal);
    assert(decimal_value(written) == decimal_value(whole));
    lemma_scaled_parts(written, written_fraction, scale);
    lemma_scaled_parts(whole, fraction, scale);
    if decimal is None {
        let a = (decimal_value(zero) * scale) as int;
        assert(a == 0) by (nonlinear_arith)
            requires
                a == decimal_value(zero) * scale,
                decimal_value(zero) == 0,
        ;
        let b = (decimal_value(none) * scale) as int;
        assert(b == 0) by (nonlinear_arith)
            requires
                b == decimal_value(none) * scale,
                decimal_value(none) == 0,
        ;
        assert(0int / 10 == 0 && 0int % 10 == 0 && 0int / 1 == 0 && 0int % 1 == 0);
    }
}

/// The value of one character as a digit, if it is one.
pub fn digit_of(c: char) -> (digit: Option<u8>)
    ensures
        digit is Some <==> is_digit(c),
        digit matches Some(d) ==> d == digit_value(c) && d <= 9,
{
    if '0' <= c && c <= '9' {
        let code: u32 = c as u32;
        let zero: u32 = '0' as u32;
        Some((code - zero) as u8)
    } else {
        None
    }
}

/// The number written by the characters from `start` on, as far as it fits
/// 64 bits.
///
/// `None` where one of them is no digit. Otherwise the number and `false`,
/// or `true` where the number is above every `u64`.
pub fn whole_value(digits: &Vec<char>, start: usize) -> (read: Option<(u64, bool)>)
    requires
        start <= digits.len(),
    ensures
        read is Some <==> all_digits(digits@.skip(start as int)),
        read matches Some((value, beyond)) ==> {
            &&& !beyond ==> value == decimal_value(digits@.skip(start as int))
            &&& beyond ==> decimal_value(digits@.skip(start as int)) > u64::MAX
        },
{
    let ghost run = digits@.skip(start as int);
    let mut value: u64 = 0;
    let mut beyond: bool = false;
    let mut i: usize = start;
    while i < digits.len()
        invariant
            start <= i <= digits.len(),
            run == digits@.skip(start as int),
            all_digits(run.take(i - start)),
            !beyond ==> value == decimal_value(run.take(i - start)),
            beyond ==> decimal_value(run.take(i - start)) > u64::MAX,
        decreases digits.len() - i,
    {
        let ghost before = run.take(i - start);
        let ghost after = run.take(i - start + 1);
        proof {
            assert(after.drop_last() =~= before);
            assert(after.last() == digits@[i as int]);
        }
        match digit_of(digits[i]) {
            None => {
                proof {
                    assert(run[i - start] == digits@[i as int]);
                    assert(!is_digit(run[i - start]));
                }
                return None;
            },
            Some(d) => {
                if !beyond {
                    let wide: u128 = (value as u128) * 10 + (d as u128);
                    if wide > u64::MAX as u128 {
                        beyond = true;
                    } else {
                        value = wide as u64;
                    }
                }
                proof {
                    assert forall|j: int| 0 <= j < after.len() implies is_digit(
                        #[trigger] after[j],
                    ) by {
                        if j < i - start {
                            assert(before[j] == after[j]);
                        }
                    }
                }
            },
        }
        i = i + 1;
    }
    proof {
        assert(run.take(i - start) =~= run);
    }
    Some((value, beyond))
}

/// The whole number that a text writes: an optional `+` and then one or more
/// ASCII digits, nothing else, and the number no larger than a `usize` holds.
pub open spec fn plain_integer(text: Seq<char>) -> Option<usize> {
    let digits = if text.len() > 0 && text[0] == '+' {
        text.skip(1)
    } else {
        text
    };
    if digits.len() > 0 && all_digits(digits) && decimal_value(digits) <= usize::MAX {
        Some(decimal_value(digits) as usize)
    } else {
        None
    }
}

/// Reads a whole number, see [`plain_integer`].
pub fn parse_plain_integer(text: &str) -> (number: Option<usize>)
    ensures
        number == plain_integer(text@),
{
    let chars = crate::utils::parsers::text::chars_of(text);
    let start: usize = if chars.len() > 0 && chars[0] == '+' {
        1
    } else {
        0
    };
    if start == chars.len() {
        return None;
    }
    proof {
        assert(chars@.skip(0) =~= chars@);
    }
    match whole_value(&chars, start) {
        Some((value, beyond)) => {
            if beyond || value > usize::MAX as u64 {
                None
            } else {
                Some(value as usize)
            }
        },
        None => None,
    }
}

/// A fraction times `scale`: the integer part of the product, and whether
/// the product is an integer.
///
/// The digits are read from the last to the first, carrying the running
/// product cut to one decimal place, so that no digit of the fraction is
/// lost whatever its length. `None` where some character is no digit.
pub fn scale_fraction(digits: &Vec<char>, scale: u32) -> (scaled: Option<(u64, bool)>)
    ensures
        scaled is Some <==> all_digits(digits@),
        scaled matches Some((quotient, whole)) ==> {
            &&& quotient == (decimal_value(digits@) * (scale as nat)) / pow10(digits@.len())
            &&& whole <==> (decimal_value(digits@) * (scale as nat)) % pow10(digits@.len()) == 0
            &&& quotient <= scale
        },
{
    let mut carried: u64 = 0;
    let mut lost: bool = false;
    let mut i: usize = digits.len();
    let ghost s: int = scale as int;
    proof {
        assert(digits@.skip(i as int) =~= Seq::<char>::empty());
        assert(decimal_value(digits@.skip(i as int)) == 0);
        assert(pow10(0) == 1);
        assert(10 * s * 0 == 0) by (nonlinear_arith);
    }
    while i > 0
        invariant
            0 <= i <= digits.len(),
            s == scale as int,
            all_digits(digits@.skip(i as int)),
            carried <= 10 * s,
            carried == (10 * s * decimal_value(digits@.skip(i as int))) / (pow10(
                (digits@.len() - i) as nat,
            ) as int),
            lost <==> (10 * s * decimal_value(digits@.skip(i as int))) % (pow10(
                (digits@.len() - i) as nat,
            ) as int) != 0,
        decreases i,
    {
        let ghost tail = digits@.skip(i as int);
        let ghost longer = digits@.skip(i as int - 1);
        let c: char = digits[i - 1];
        proof {
            assert(longer =~= seq![c] + tail);
            assert(tail.len() == digits@.len() - i);
            lemma_fraction_step(c, tail, s);
        }
        match digit_of(c) {
            None => {
                proof {
                    assert(digits@[i as int - 1] == c);
                    assert(!is_digit(digits@[i as int - 1]));
                }
                return None;
            },
            Some(d) => {
                proof {
                    assert(d * s <= 9 * s) by (nonlinear_arith)
                        requires
                            0 <= d <= 9,
                            0 <= s,
                    ;
                }
                lost = lost || carried % 10 != 0;
                carried = (d as u64) * (scale as u64) + carried / 10;
                proof {
                    assert forall|j: int| 0 <= j < longer.len() implies is_digit(
                        #[trigger] longer[j],
                    ) by {
                        if j > 0 {
                            assert(longer[j] == tail[j - 1]);
                        }
                    }
                }
            },
        }
        i = i - 1;
    }
    proof {
        assert(digits@.skip(0) =~= digits@);
        let a: int = s * decimal_value(digits@);
        assert(0 <= a) by (nonlinear_arith)
            requires
                a == s * decimal_value(digits@),
                0 <= s,
        ;
        lemma_pow10_positive(digits@.len());
        assert(10 * s * decimal_value(digits@) == 10 * a) by (nonlinear_arith)
            requires
                a == s * decimal_value(digits@),
        ;
        lemma_div_tenfold(a, pow10(digits@.len()) as int);
        assert(decimal_value(digits@) * scale == a) by (nonlinear_arith)
            requires
                a == s * decimal_value(digits@),
                s == scale as int,
        ;
    }
    Some((carried / 10, !(lost || carried % 10 != 0)))
}

/// `whole.fraction × scale` as a `usize`: rounded up when `round_up`, else
/// towards zero, and the largest `usize` where the result is above it.
///
/// `None` where `whole` or `fraction` holds a character that is no ASCII
/// digit; an empty part counts as zero.
pub fn scale_decimal(whole: &str, fraction: &str, scale: u32, round_up: bool) -> (scaled: Option<
    usize,
>)
    ensures
        scaled is Some <==> all_digits(whole@) && all_digits(fraction@),
        scaled matches Some(n) ==> n == saturate(
            scaled_value(whole@, fraction@, scale as nat, round_up),
        ),
{
    let whole_digits = crate::utils::parsers::text::chars_of(whole);
    let fraction_digits = crate::utils::parsers::text::chars_of(fraction);
    proof {
        assert(whole_digits@.skip(0) =~= whole_digits@);
    }
    let (value, beyond) = match whole_value(&whole_digits, 0) {
        None => {
            return None;
        },
        Some(read) => read,
    };
    let (quotient, is_whole) = match scale_fraction(&fraction_digits, scale) {
        None => {
            return None;
        },
        Some(part) => part,
    };
    proof {
        lemma_scaled_parts(whole@, fraction@, scale as nat);
        lemma_pow10_positive(fraction@.len());
    }
    if scale == 0 {
        proof {
            let w = decimal_value(whole@);
            let f = decimal_value(fraction@);
            let p = pow10(fraction@.len());
            assert(w * (scale as nat) == 0) by (nonlinear_arith)
                requires
                    scale == 0,
            ;
            assert(f * (scale as nat) == 0) by (nonlinear_arith)
                requires
                    scale == 0,
            ;
            assert(0nat / p == 0 && 0nat % p == 0) by (nonlinear_arith)
                requires
                    p > 0,
            ;
        }
        return Some(0);
    }
    if beyond {
        proof {
            let w = decimal_value(whole@) as int;
            let s = scale as int;
            assert(w * s >= w) by (nonlinear_arith)
                requires
                    s >= 1,
                    w >= 0,
            ;
        }
        return Some(usize::MAX);
    }
    let bump: u128 = if round_up && !is_whole {
        1
    } else {
        0
    };
    proof {
        assert((value as int) * (scale as int) <= 0xffff_ffff_ffff_ffff * 0xffff_ffff)
            by (nonlinear_arith)
            requires
                0 <= value <= 0xffff_ffff_ffff_ffff,
                0 <= scale <= 0xffff_ffff,
        ;
    }
    let total: u128 = (value as u128) * (scale as u128) + (quotient as u128) + bump;
    if total > usize::MAX as u128 {
        Some(usize::MAX)
    } else {
        Some(total as usize)
    }
}

} // verus!
