//! Decimal numbers written in ASCII, read and written in whole-number
//! arithmetic: a count of milliseconds such as `12.345` becomes exactly
//! 12 345 000 nanoseconds, and what is less than a nanosecond is rounded.

use crate::ascii::{all_in, lemma_run_end_bounds, lemma_run_end_is, lemma_run_end_subrange,
    run_end, skip_run, ByteClass, DOT, FIVE, ZERO};
use crate::time::{max_total_nanos, TimeSpan};
use vstd::prelude::*;
use vstd::string::StringExecFns;

verus! {

/// The largest whole number of milliseconds whose nanoseconds a [`TimeSpan`]
/// can hold.
pub const WHOLE_MILLIS_MAX: u128 = 18_446_744_073_709_551_615_999;

/// How many digits after the point are kept: a millisecond has a million
/// nanoseconds.
pub const KEPT_DIGITS: usize = 6;

/// The number that a digit stands for.
pub open spec fn digit_of(b: u8) -> nat {
    (b - ZERO) as nat
}

/// The number that a string of digits stands for; the empty string stands for
/// zero.
pub open spec fn digits_value(s: Seq<u8>) -> nat
    decreases s.len(),
{
    if s.len() == 0 {
        0
    } else {
        digits_value(s.drop_last()) * 10 + digit_of(s.last())
    }
}

/// The first six digits of `frac`, with zeros where `frac` has fewer.
pub open spec fn six_digits(frac: Seq<u8>) -> Seq<u8> {
    Seq::new(
        6,
        |i: int|
            if i < frac.len() {
                frac[i]
            } else {
                ZERO
            },
    )
}

/// Whether the digits beyond the sixth come to half a millionth or more, which
/// is decided by the seventh.
pub open spec fn rounds_up(frac: Seq<u8>) -> bool {
    frac.len() > 6 && frac[6] >= FIVE
}

/// The digits after a decimal point read as millionths, rounded to the nearest
/// millionth, and half a millionth upwards.
pub open spec fn fraction_millionths(frac: Seq<u8>) -> nat {
    if rounds_up(frac) {
        digits_value(six_digits(frac)) + 1
    } else {
        digits_value(six_digits(frac))
    }
}

/// `token` is a decimal number: digits, at most one dot among them, and at
/// least one digit. `12`, `12.`, `12.5` and `.5` are decimal numbers; the empty
/// string, `.` and `1.2.3` are not.
pub open spec fn is_decimal(token: Seq<u8>) -> bool {
    let d = run_end(token, 0, ByteClass::Digit);
    if d == token.len() {
        d > 0
    } else {
        &&& token[d] == DOT
        &&& token.len() > 1
        &&& run_end(token, d + 1, ByteClass::Digit) == token.len()
    }
}

/// The digits before the point.
pub open spec fn whole_part(token: Seq<u8>) -> Seq<u8> {
    token.take(run_end(token, 0, ByteClass::Digit))
}

/// The digits after the point; empty when there is no point.
pub open spec fn fraction_part(token: Seq<u8>) -> Seq<u8> {
    let d = run_end(token, 0, ByteClass::Digit);
    if d < token.len() {
        token.skip(d + 1)
    } else {
        Seq::empty()
    }
}

/// A decimal number in millionths of its unit, rounded to the nearest
/// millionth.
pub open spec fn decimal_millionths(token: Seq<u8>) -> nat {
    digits_value(whole_part(token)) * 1_000_000 + fraction_millionths(fraction_part(token))
}

/// What a count of milliseconds written as `token` comes to in nanoseconds,
/// rounded to the nearest. There is no reading when `token` is no decimal
/// number or when the span would not fit a [`TimeSpan`].
pub open spec fn millis_reading(token: Seq<u8>) -> Option<nat> {
    if is_decimal(token) && decimal_millionths(token) <= max_total_nanos() {
        Some(decimal_millionths(token))
    } else {
        None
    }
}

/// The length in nanoseconds of a span that may be absent.
pub open spec fn span_nanos(span: Option<TimeSpan>) -> Option<nat> {
    match span {
        Some(t) => Some(t.total_nanos()),
        None => None,
    }
}

/// Appending one digit multiplies the value by ten and adds the digit.
pub proof fn lemma_digits_value_step(s: Seq<u8>, n: int)
    requires
        0 <= n < s.len(),
    ensures
        digits_value(s.take(n + 1)) == digits_value(s.take(n)) * 10 + digit_of(s[n]),
{
    assert(s.take(n + 1).drop_last() =~= s.take(n));
}

/// The digits after the point of a number that ends at `to` with its point, if
/// it has one, at `point`.
pub open spec fn digits_after(text: Seq<u8>, point: int, to: int) -> Seq<u8> {
    if point < to {
        text.subrange(point + 1, to)
    } else {
        Seq::empty()
    }
}

/// Digits from `from` to `point`, followed either by nothing or by a dot and
/// digits up to `to`, are a decimal number with those two parts, provided
/// there is a digit on one side at least.
pub proof fn lemma_decimal_parts(text: Seq<u8>, from: int, point: int, to: int)
    requires
        0 <= from <= point <= to <= text.len(),
        all_in(text, from, point, ByteClass::Digit),
        to == point || (text[point] == DOT && all_in(text, point + 1, to, ByteClass::Digit)),
        from < point || point + 1 < to,
    ensures
        is_decimal(text.subrange(from, to)),
        whole_part(text.subrange(from, to)) == text.subrange(from, point),
        fraction_part(text.subrange(from, to)) == digits_after(text, point, to),
        decimal_millionths(text.subrange(from, to)) == digits_value(text.subrange(from, point))
            * 1_000_000 + fraction_millionths(digits_after(text, point, to)),
{
    let token = text.subrange(from, to);
    assert(all_in(token, 0, point - from, ByteClass::Digit)) by {
        assert forall|k: int| 0 <= k < point - from implies ByteClass::Digit.holds(
            #[trigger] token[k],
        ) by {
            assert(token[k] == text[from + k]);
        }
    }
    if point < to {
        assert(token[point - from] == text[point]);
        assert(all_in(token, point + 1 - from, to - from, ByteClass::Digit)) by {
            assert forall|k: int| point + 1 - from <= k < to - from implies ByteClass::Digit.holds(
                #[trigger] token[k],
            ) by {
                assert(token[k] == text[from + k]);
            }
        }
        lemma_run_end_is(token, point + 1 - from, to - from, ByteClass::Digit);
        assert(token.skip(point - from + 1) =~= text.subrange(point + 1, to));
    }
    lemma_run_end_is(token, 0, point - from, ByteClass::Digit);
    assert(token.take(point - from) =~= text.subrange(from, point));
}

/// The number that the digits of `text` from `from` to `to` stand for, or
/// `None` when it is above `limit`.
pub fn bounded_value(text: &[u8], from: usize, to: usize, limit: u128) -> (r: Option<u128>)
    requires
        from <= to <= text.len(),
        all_in(text@, from as int, to as int, ByteClass::Digit),
        limit <= WHOLE_MILLIS_MAX,
    ensures
        match r {
            Some(v) => v == digits_value(text@.subrange(from as int, to as int)) && v <= limit,
            None => digits_value(text@.subrange(from as int, to as int)) > limit,
        },
{
    let ghost digits = text@.subrange(from as int, to as int);
    let mut value: u128 = 0;
    let mut huge: bool = false;
    let mut k: usize = from;
    while k < to
        invariant
            from <= k <= to <= text.len(),
            digits == text@.subrange(from as int, to as int),
            all_in(text@, from as int, to as int, ByteClass::Digit),
            limit <= WHOLE_MILLIS_MAX,
            !huge ==> value == digits_value(digits.take(k - from)) && value <= limit,
            huge ==> digits_value(digits.take(k - from)) > limit,
        decreases to - k,
    {
        assert(ByteClass::Digit.holds(text@[k as int]));
        let digit: u128 = (text[k] - ZERO) as u128;
        proof {
            lemma_digits_value_step(digits, k - from);
        }
        if !huge {
            let next: u128 = value * 10 + digit;
            if next > limit {
                huge = true;
            } else {
                value = next;
            }
        }
        k += 1;
    }
    assert(digits.take(to - from) =~= digits);
    if huge {
        None
    } else {
        Some(value)
    }
}

/// The digits of `text` from `from` to `to`, read as the digits after a
/// decimal point, in millionths.
fn fraction_value(text: &[u8], from: usize, to: usize) -> (r: u128)
    requires
        from <= to <= text.len(),
        all_in(text@, from as int, to as int, ByteClass::Digit),
    ensures
        r == fraction_millionths(text@.subrange(from as int, to as int)),
        r <= 1_000_000,
{
    let ghost frac = text@.subrange(from as int, to as int);
    let ghost padded = six_digits(frac);
    let mut value: u128 = 0;
    let mut bound: u128 = 1;
    let mut i: usize = 0;
    while i < KEPT_DIGITS
        invariant
            i <= KEPT_DIGITS,
            from <= to <= text.len(),
            frac == text@.subrange(from as int, to as int),
            padded == six_digits(frac),
            all_in(text@, from as int, to as int, ByteClass::Digit),
            value == digits_value(padded.take(i as int)),
            value < bound,
            bound <= 1_000_000,
            i == 0 ==> bound == 1,
            i == 1 ==> bound == 10,
            i == 2 ==> bound == 100,
            i == 3 ==> bound == 1_000,
            i == 4 ==> bound == 10_000,
            i == 5 ==> bound == 100_000,
            i == 6 ==> bound == 1_000_000,
        decreases KEPT_DIGITS - i,
    {
        let digit: u128 = if i < to - from {
            assert(ByteClass::Digit.holds(text@[from + i]));
            (text[from + i] - ZERO) as u128
        } else {
            0
        };
        proof {
            lemma_digits_value_step(padded, i as int);
        }
        value = value * 10 + digit;
        bound = bound * 10;
        i += 1;
    }
    assert(padded.take(6) =~= padded);
    if to - from > KEPT_DIGITS && text[from + KEPT_DIGITS] >= FIVE {
        value + 1
    } else {
        value
    }
}

/// Reads the bytes of `text` from `start` to `end` as a count of milliseconds.
pub fn read_millis(text: &[u8], start: usize, end: usize) -> (r: Option<TimeSpan>)
    requires
        start <= end <= text.len(),
    ensures
        span_nanos(r) == millis_reading(text@.subrange(start as int, end as int)),
{
    let ghost token = text@.subrange(start as int, end as int);
    let run: usize = skip_run(text, start, ByteClass::Digit);
    let point: usize = if run < end {
        run
    } else {
        end
    };
    proof {
        lemma_run_end_subrange(text@, start as int, end as int, start as int, ByteClass::Digit);
        lemma_run_end_bounds(text@, start as int, ByteClass::Digit);
        assert(run_end(token, 0, ByteClass::Digit) == point - start);
        assert(whole_part(token) =~= text@.subrange(start as int, point as int));
    }
    let fraction: u128 = if point == end {
        if point == start {
            return None;
        }
        proof {
            assert(fraction_part(token) =~= Seq::<u8>::empty());
            assert(text@.subrange(end as int, end as int) =~= Seq::<u8>::empty());
        }
        fraction_value(text, end, end)
    } else {
        assert(token[point - start] == text@[point as int]);
        if text[point] != DOT || end - start <= 1 {
            return None;
        }
        let first: usize = point + 1;
        let stop: usize = skip_run(text, first, ByteClass::Digit);
        proof {
            lemma_run_end_subrange(text@, start as int, end as int, first as int, ByteClass::Digit);
            lemma_run_end_bounds(text@, first as int, ByteClass::Digit);
        }
        if stop < end {
            return None;
        }
        proof {
            assert(fraction_part(token) =~= text@.subrange(first as int, end as int));
        }
        fraction_value(text, first, end)
    };
    match bounded_value(text, start, point, WHOLE_MILLIS_MAX) {
        Some(whole) => {
            let nanos: u128 = whole * 1_000_000 + fraction;
            TimeSpan::from_nanos(nanos)
        },
        None => None,
    }
}

/// The character that writes a digit.
pub open spec fn digit_char(d: nat) -> char {
    if d == 0 {
        '0'
    } else if d == 1 {
        '1'
    } else if d == 2 {
        '2'
    } else if d == 3 {
        '3'
    } else if d == 4 {
        '4'
    } else if d == 5 {
        '5'
    } else if d == 6 {
        '6'
    } else if d == 7 {
        '7'
    } else if d == 8 {
        '8'
    } else {
        '9'
    }
}

/// A number written in decimal, without sign and without leading zeros.
pub open spec fn decimal_text(n: nat) -> Seq<char>
    decreases n,
{
    if n < 10 {
        seq![digit_char(n)]
    } else {
        decimal_text(n / 10).push(digit_char(n % 10))
    }
}

/// The text of one digit.
fn digit_text(d: u8) -> (text: &'static str)
    requires
        d < 10,
    ensures
        text@ == seq![digit_char(d as nat)],
{
    proof {
        reveal_strlit("0");
        reveal_strlit("1");
        reveal_strlit("2");
        reveal_strlit("3");
        reveal_strlit("4");
        reveal_strlit("5");
        reveal_strlit("6");
        reveal_strlit("7");
        reveal_strlit("8");
        reveal_strlit("9");
    }
    let text = match d {
        0 => "0",
        1 => "1",
        2 => "2",
        3 => "3",
        4 => "4",
        5 => "5",
        6 => "6",
        7 => "7",
        8 => "8",
        _ => "9",
    };
    assert(text@ =~= seq![digit_char(d as nat)]);
    text
}

/// Writes `n` in decimal.
pub fn render(n: u128) -> (text: String)
    ensures
        text@ == decimal_text(n as nat),
    decreases n,
{
    if n < 10 {
        String::from_str(digit_text(n as u8))
    } else {
        let mut text = render(n / 10);
        text.append(digit_text((n % 10) as u8));
        assert(text@ =~= decimal_text(n as nat));
        text
    }
}

} // verus!
