//! The devfund share, given as a percentage with up to two decimals.
//!
//! A percentage is written `XX` or `XX.YY`: an integral part and, after a
//! single `.`, a fractional part, each of one or two ASCII digits. It is held
//! as a number of ten-thousandths, so that `5.25` is 525. A share below two
//! percent is raised to two percent.

use vstd::prelude::*;
use crate::decimal::{all_digits, digit_of, digits_value, is_digit};
use crate::text::{
    chars_of, find_char, first_index_of, lemma_first_index_of, lemma_first_occurrence_unique,
};

verus! {

/// What `parse_devfund_percent` answers to a string that is no percentage.
pub const PERCENT_FORMAT_ERROR: &'static str =
    "devfund-percent should be --devfund-percent=XX.YY up to 2 numbers after the dot";

/// The smallest share that is granted, in ten-thousandths: two percent.
pub const MIN_SHARE: u16 = 200;

/// One part of a percentage: one or two ASCII digits.
pub open spec fn is_percent_part(p: Seq<char>) -> bool {
    1 <= p.len() <= 2 && all_digits(p)
}

/// The integral and the fractional part of `s`: what stands before its first
/// `.` and what stands after it. Where `s` holds no `.`, all of it is the
/// integral part and the fractional part is `0`.
pub open spec fn percent_parts(s: Seq<char>) -> (Seq<char>, Seq<char>) {
    match first_index_of(s, '.') {
        Some(i) => (s.subrange(0, i), s.subrange(i + 1, s.len() as int)),
        None => (s, seq!['0']),
    }
}

/// The share, in ten-thousandths, for `integral` percent and `fractional`
/// hundredths of a percent.
pub open spec fn share_of(integral: int, fractional: int) -> int {
    if integral < 2 {
        MIN_SHARE as int
    } else {
        integral * 100 + fractional
    }
}

/// The share that `s` asks for, or `None` where `s` is no percentage.
pub open spec fn percent_of(s: Seq<char>) -> Option<int> {
    let (integral, fractional) = percent_parts(s);
    if is_percent_part(integral) && is_percent_part(fractional) {
        Some(share_of(digits_value(integral), digits_value(fractional)))
    } else {
        None
    }
}

/// A part of a percentage denotes a number below 100.
pub proof fn lemma_part_below_hundred(p: Seq<char>)
    requires
        is_percent_part(p),
    ensures
        0 <= digits_value(p) < 100,
{
    reveal_with_fuel(digits_value, 3);
    assert(is_digit(p[0]));
    if p.len() == 2 {
        assert(is_digit(p[1]));
        assert(p.drop_last().len() == 1);
        assert(p.drop_last().last() == p[0]);
    }
}

/// Where `p` holds no `.`, the parts of `p`, `.`, `f` joined are `p` and `f`.
pub proof fn lemma_parts_of_joined(p: Seq<char>, f: Seq<char>)
    requires
        !p.contains('.'),
    ensures
        percent_parts(p + seq!['.'] + f) == (p, f),
{
    let s = p + seq!['.'] + f;
    let dot = p.len() as int;
    assert forall|j: int| 0 <= j < dot implies s[j] != '.' by {
        assert(s[j] == p[j]);
        assert(p.contains(p[j]));
    }
    assert(s[dot] == '.');
    lemma_first_occurrence_unique(s, '.', dot);
    assert(s.subrange(0, dot) =~= p);
    assert(s.subrange(dot + 1, s.len() as int) =~= f);
}

/// A percentage with a fraction: for an integral part `p` and a fractional
/// part `f` of one or two digits each, `p.f` asks for `p` percent and `f`
/// hundredths, and for two percent where `p` is below 2.
pub proof fn lemma_percent_with_fraction(p: Seq<char>, f: Seq<char>)
    requires
        is_percent_part(p),
        is_percent_part(f),
    ensures
        percent_of(p + seq!['.'] + f) == Some(share_of(digits_value(p), digits_value(f))),
        digits_value(p) >= 2 ==> percent_of(p + seq!['.'] + f) == Some(
            digits_value(p) * 100 + digits_value(f),
        ),
        digits_value(p) < 2 ==> percent_of(p + seq!['.'] + f) == Some(200int),
{
    assert(!p.contains('.')) by {
        if p.contains('.') {
            let i = choose|i: int| 0 <= i < p.len() && p[i] == '.';
            assert(is_digit(p[i]));
        }
    }
    lemma_parts_of_joined(p, f);
}

/// A percentage without a fraction: an integral part `p` of one or two
/// digits asks for `p` percent, and for two percent where `p` is below 2.
pub proof fn lemma_percent_without_fraction(p: Seq<char>)
    requires
        is_percent_part(p),
    ensures
        percent_of(p) == Some(share_of(digits_value(p), 0)),
        digits_value(p) >= 2 ==> percent_of(p) == Some(digits_value(p) * 100),
        digits_value(p) < 2 ==> percent_of(p) == Some(200int),
{
    lemma_first_index_of(p, '.');
    if first_index_of(p, '.') is Some {
        let i = first_index_of(p, '.')->0;
        assert(is_digit(p[i]));
    }
    reveal_with_fuel(digits_value, 2);
    assert(is_percent_part(seq!['0']));
    assert(digits_value(seq!['0']) == 0);
}

/// Every share that a percentage asks for lies between 200 and 9999.
pub proof fn lemma_share_in_range(s: Seq<char>)
    requires
        percent_of(s) is Some,
    ensures
        MIN_SHARE <= percent_of(s)->0 <= 9999,
{
    lemma_part_below_hundred(percent_parts(s).0);
    lemma_part_below_hundred(percent_parts(s).1);
}

/// A string with two or more `.` is no percentage.
pub proof fn lemma_second_dot_refused(s: Seq<char>, i: int, j: int)
    requires
        0 <= i < j < s.len(),
        s[i] == '.',
        s[j] == '.',
    ensures
        percent_of(s) is None,
{
    lemma_first_index_of(s, '.');
    let first = first_index_of(s, '.')->0;
    let fractional = percent_parts(s).1;
    assert(first <= i);
    assert(fractional[j - first - 1] == '.');
    assert(!is_digit(fractional[j - first - 1]));
}

/// A string whose integral or fractional part is longer than two characters,
/// or denotes 100 or more, is no percentage.
pub proof fn lemma_long_part_refused(p: Seq<char>, f: Seq<char>)
    requires
        !p.contains('.'),
        p.len() > 2 || f.len() > 2 || digits_value(p) >= 100 || digits_value(f) >= 100,
    ensures
        percent_of(p + seq!['.'] + f) is None,
{
    lemma_parts_of_joined(p, f);
    if is_percent_part(p) {
        lemma_part_below_hundred(p);
    }
    if is_percent_part(f) {
        lemma_part_below_hundred(f);
    }
}

/// A string without a `.` that is longer than two characters, or denotes 100
/// or more, is no percentage.
pub proof fn lemma_long_number_refused(p: Seq<char>)
    requires
        !p.contains('.'),
        p.len() > 2 || digits_value(p) >= 100,
    ensures
        percent_of(p) is None,
{
    if is_percent_part(p) {
        lemma_part_below_hundred(p);
    }
}

/// Reads the part of a percentage that stands in `chars` from `from` up to
/// `to`.
fn parse_part(chars: &[char], from: usize, to: usize) -> (r: Option<u16>)
    requires
        from <= to <= chars.len(),
    ensures
        match r {
            Some(v) => {
                &&& is_percent_part(chars@.subrange(from as int, to as int))
                &&& v == digits_value(chars@.subrange(from as int, to as int))
                &&& v < 100
            },
            None => !is_percent_part(chars@.subrange(from as int, to as int)),
        },
{
    let ghost part = chars@.subrange(from as int, to as int);
    proof {
        reveal_with_fuel(digits_value, 3);
    }
    if to - from == 1 {
        assert(part[0] == chars@[from as int]);
        digit_of(chars[from])
    } else if to - from == 2 {
        assert(part[0] == chars@[from as int]);
        assert(part[1] == chars@[from + 1]);
        assert(part.drop_last().last() == part[0]);
        match (digit_of(chars[from]), digit_of(chars[from + 1])) {
            (Some(tens), Some(units)) => Some(tens * 10 + units),
            _ => None,
        }
    } else {
        None
    }
}

/// Reads a percentage. The answer is its share in ten-thousandths, from 200
/// to 9999; a string that is no percentage is refused with
/// `PERCENT_FORMAT_ERROR`.
pub fn parse_devfund_percent(s: &str) -> (r: Result<u16, &'static str>)
    ensures
        match r {
            Ok(share) => percent_of(s@) == Some(share as int) && MIN_SHARE <= share <= 9999,
            Err(message) => percent_of(s@) is None && message@ == PERCENT_FORMAT_ERROR@,
        },
{
    let chars = chars_of(s);
    proof {
        lemma_first_index_of(s@, '.');
    }
    let (integral, fractional) = match find_char(chars.as_slice(), '.') {
        Some(dot) => (
            parse_part(chars.as_slice(), 0, dot),
            parse_part(chars.as_slice(), dot + 1, chars.len()),
        ),
        None => {
            proof {
                reveal_with_fuel(digits_value, 2);
                assert(chars@.subrange(0, chars@.len() as int) =~= chars@);
                assert(is_percent_part(seq!['0']));
            }
            (parse_part(chars.as_slice(), 0, chars.len()), Some(0u16))
        },
    };
    match (integral, fractional) {
        (Some(whole), Some(hundredths)) => {
            if whole < 2 {
                Ok(MIN_SHARE)
            } else {
                Ok(whole * 100 + hundredths)
            }
        },
        _ => Err(PERCENT_FORMAT_ERROR),
    }
}

} // verus!
