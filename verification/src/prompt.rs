//! The decisions behind the interactive prompts: parsing numeric input and
//! menu choices, and turning raw answer lines into values.  Reading and
//! printing stay with the caller; everything here is a pure function from
//! the entered bytes to a decision.

use vstd::prelude::*;

use crate::errors::EngineError;

verus! {

/// The byte is an ASCII decimal digit.
pub open spec fn is_digit(b: u8) -> bool {
    48 <= b <= 57
}

/// The digits of a number literal: the input with one optional leading
/// plus sign removed.
pub open spec fn digits_part(s: Seq<u8>) -> Seq<u8> {
    if s.len() >= 1 && s[0] == 43 {
        s.subrange(1, s.len() as int)
    } else {
        s
    }
}

/// The input spells an unsigned decimal number: an optional plus sign, then
/// one or more digits.
pub open spec fn is_number_literal(s: Seq<u8>) -> bool {
    &&& digits_part(s).len() >= 1
    &&& forall|i: int| 0 <= i < digits_part(s).len() ==> is_digit(#[trigger] digits_part(s)[i])
}

/// The value a digit string denotes, most significant digit first.
pub open spec fn digits_value(s: Seq<u8>) -> int
    decreases s.len(),
{
    if s.len() == 0 {
        0
    } else {
        digits_value(s.drop_last()) * 10 + (s.last() - 48)
    }
}

/// The number an input spells.
pub open spec fn number_of(s: Seq<u8>) -> int {
    digits_value(digits_part(s))
}

/// A digit string denotes a non-negative value.
proof fn lemma_digits_value_nonneg(s: Seq<u8>)
    requires
        forall|i: int| 0 <= i < s.len() ==> is_digit(#[trigger] s[i]),
    ensures
        digits_value(s) >= 0,
    decreases s.len(),
{
    if s.len() > 0 {
        lemma_digits_value_nonneg(s.drop_last());
    }
}

/// Reading more digits never lowers the value: the whole string denotes at
/// least what any prefix does.
proof fn lemma_digits_value_prefix_le(s: Seq<u8>, j: int)
    requires
        forall|i: int| 0 <= i < s.len() ==> is_digit(#[trigger] s[i]),
        0 <= j <= s.len(),
    ensures
        digits_value(s.take(j)) <= digits_value(s),
        digits_value(s.take(j)) >= 0,
    decreases s.len() - j,
{
    assert forall|i: int| 0 <= i < s.take(j).len() implies is_digit(#[trigger] s.take(j)[i]) by {
        assert(s.take(j)[i] == s[i]);
    }
    lemma_digits_value_nonneg(s.take(j));
    if j == s.len() {
        assert(s.take(j) =~= s);
    } else {
        assert(s.take(j + 1).drop_last() =~= s.take(j));
        assert(digits_value(s.take(j + 1)) == digits_value(s.take(j)) * 10 + (s[j] - 48));
        assert(digits_value(s.take(j)) * 10 >= digits_value(s.take(j)));
        lemma_digits_value_prefix_le(s, j + 1);
    }
}

/// Parse an unsigned decimal literal of at most `u64::MAX`.  Returns the
/// denoted value exactly; anything that is not a number literal, or a
/// value beyond `u64::MAX`, is rejected.
fn parse_magnitude(input: &[u8]) -> (r: Option<u64>)
    ensures
        match r {
            Some(v) => is_number_literal(input@) && v == number_of(input@),
            None => !is_number_literal(input@) || number_of(input@) > u64::MAX,
        },
{
    let ghost digits = digits_part(input@);
    let start: usize = if input.len() >= 1 && input[0] == 43 {
        1
    } else {
        0
    };
    proof {
        assert(digits =~= input@.subrange(start as int, input@.len() as int));
    }
    if input.len() == start {
        return None;
    }
    let mut acc: u128 = 0;
    let mut i: usize = start;
    while i < input.len()
        invariant
            start <= i <= input@.len(),
            start <= 1,
            digits == digits_part(input@),
            digits =~= input@.subrange(start as int, input@.len() as int),
            digits.len() >= 1,
            forall|j: int| 0 <= j < i - start ==> is_digit(#[trigger] digits[j]),
            acc == digits_value(digits.take(i - start)),
            acc <= u64::MAX,
        decreases input@.len() - i,
    {
        let b = input[i];
        if b < 48 || b > 57 {
            proof {
                assert(digits[i - start] == input@[i as int]);
                assert(!is_digit(digits[i - start]));
            }
            return None;
        }
        proof {
            assert(digits[i - start] == input@[i as int]);
            assert(digits.take(i - start + 1).drop_last() =~= digits.take(i - start));
            assert(digits.take(i - start + 1).last() == digits[i - start]);
        }
        acc = acc * 10 + ((b - 48) as u128);
        if acc > 0xffffffffffffffff {
            proof {
                // either some later byte is no digit (not a literal), or
                // the full value only grows past what was already read
                if is_number_literal(input@) {
                    lemma_digits_value_prefix_le(digits, i - start + 1);
                }
            }
            return None;
        }
        i = i + 1;
    }
    proof {
        assert(digits.take(i - start) =~= digits);
    }
    Some(acc as u64)
}

/// Parse a menu or count entry: an unsigned decimal that fits a `usize`.
pub fn parse_usize(input: &[u8]) -> (r: Option<usize>)
    ensures
        match r {
            Some(v) => is_number_literal(input@) && v == number_of(input@),
            None => !is_number_literal(input@) || number_of(input@) > usize::MAX,
        },
{
    match parse_magnitude(input) {
        Some(v) => {
            if v <= usize::MAX as u64 {
                Some(v as usize)
            } else {
                None
            }
        },
        None => None,
    }
}

/// Read the target-monthly-allowance setting: an unsigned decimal number of
/// dollars that fits a `u32`.  Anything else is a configuration error.
pub fn parse_allowance(input: &[u8]) -> (r: Result<u32, EngineError>)
    ensures
        match r {
            Ok(v) => is_number_literal(input@) && v == number_of(input@),
            Err(e) => (!is_number_literal(input@) || number_of(input@) > u32::MAX) && e
                == EngineError::Configuration,
        },
{
    match parse_magnitude(input) {
        Some(v) => {
            if v <= u32::MAX as u64 {
                Ok(v as u32)
            } else {
                Err(EngineError::Configuration)
            }
        },
        None => Err(EngineError::Configuration),
    }
}

/// The decision behind picking a task from the displayed candidates: the
/// entry must spell a number between one and the number of candidates, and
/// names the candidate at that one-based position.
pub fn select_task(candidate_count: usize, input: &[u8]) -> (r: Option<usize>)
    ensures
        match r {
            Some(choice) => is_number_literal(input@) && 1 <= number_of(input@)
                <= candidate_count && choice == number_of(input@) - 1,
            None => !is_number_literal(input@) || number_of(input@) < 1 || number_of(input@)
                > candidate_count,
        },
{
    match parse_usize(input) {
        Some(n) => {
            if 1 <= n && n <= candidate_count {
                Some(n - 1)
            } else {
                None
            }
        },
        None => None,
    }
}

/// An answer to the optional-description prompt: an empty line means no
/// description, anything else is kept verbatim.
pub fn request_optional_description(line: String) -> (r: Option<String>)
    ensures
        line@.len() == 0 ==> r is None,
        line@.len() > 0 ==> r == Some(line),
{
    if line.as_str().is_empty() {
        None
    } else {
        Some(line)
    }
}

} // verus!
