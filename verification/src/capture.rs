//! The size limit of a window screenshot, given as text such as `512x512`.

use vstd::prelude::*;
use crate::text::chars_of;

verus! {

/// The width and height used where the text gives no usable size.
pub const DEFAULT_MAX_SIZE: i32 = 256;

/// An ASCII decimal digit.
pub open spec fn is_digit(c: char) -> bool {
    '0' <= c && c <= '9'
}

/// The value of a decimal digit.
pub open spec fn digit_value(c: char) -> int {
    c as int - '0' as int
}

/// The number that a string of decimal digits denotes.
pub open spec fn decimal_value(digits: Seq<char>) -> int
    decreases digits.len(),
{
    if digits.len() == 0 {
        0
    } else {
        10 * decimal_value(digits.drop_last()) + digit_value(digits.last())
    }
}

/// Every character is a decimal digit.
pub open spec fn all_digits(s: Seq<char>) -> bool {
    forall|i: int| 0 <= i < s.len() ==> is_digit(#[trigger] s[i])
}

/// `s` without a leading `+`.
pub open spec fn unsigned_part(s: Seq<char>) -> Seq<char> {
    if s.len() > 0 && s[0] == '+' {
        s.skip(1)
    } else {
        s
    }
}

/// The number that `s` denotes where `s` is an optional `+` and at least one
/// decimal digit, and the number is positive and fits an `i32`: the strings
/// that `str::parse::<i32>` accepts with a positive result.
pub open spec fn positive_number(s: Seq<char>) -> Option<i32> {
    let digits = unsigned_part(s);
    if digits.len() > 0 && all_digits(digits) && 0 < decimal_value(digits) <= i32::MAX {
        Some(decimal_value(digits) as i32)
    } else {
        None
    }
}

/// `k` is the index of the first `x` of `s`.
pub open spec fn is_first_x(s: Seq<char>, k: int) -> bool {
    &&& 0 <= k < s.len()
    &&& s[k] == 'x'
    &&& forall|j: int| 0 <= j < k ==> s[j] != 'x'
}

/// The size that a text gives: the numbers before and after its first `x`
/// where both are positive numbers, and the default size otherwise.
pub open spec fn max_size_of(size: Seq<char>) -> (i32, i32) {
    if exists|k: int| is_first_x(size, k) {
        let k = choose|k: int| is_first_x(size, k);
        match (positive_number(size.take(k)), positive_number(size.skip(k + 1))) {
            (Some(w), Some(h)) => (w, h),
            _ => (DEFAULT_MAX_SIZE, DEFAULT_MAX_SIZE),
        }
    } else {
        (DEFAULT_MAX_SIZE, DEFAULT_MAX_SIZE)
    }
}

/// The number that a string of digits denotes is not negative.
proof fn lemma_decimal_value_nonnegative(digits: Seq<char>)
    requires
        all_digits(digits),
    ensures
        decimal_value(digits) >= 0,
    decreases digits.len(),
{
    if digits.len() > 0 {
        assert(all_digits(digits.drop_last())) by {
            assert forall|i: int| 0 <= i < digits.drop_last().len() implies is_digit(
                #[trigger] digits.drop_last()[i],
            ) by {
                assert(digits.drop_last()[i] == digits[i]);
            }
        }
        lemma_decimal_value_nonnegative(digits.drop_last());
        assert(is_digit(digits[digits.len() - 1]));
    }
}

/// Reads the positive number that the characters from `from` up to `to`
/// denote.
pub fn parse_positive(chars: &Vec<char>, from: usize, to: usize) -> (r: Option<i32>)
    requires
        from <= to <= chars.len(),
    ensures
        r == positive_number(chars@.subrange(from as int, to as int)),
{
    let ghost s = chars@.subrange(from as int, to as int);
    let mut start: usize = from;
    if from < to && chars[from] == '+' {
        start = from + 1;
        assert(s[0] == chars@[from as int]);
        assert(unsigned_part(s) =~= chars@.subrange(start as int, to as int));
    } else {
        if from < to {
            assert(s[0] == chars@[from as int]);
        }
        assert(unsigned_part(s) =~= chars@.subrange(start as int, to as int));
    }
    let ghost digits = chars@.subrange(start as int, to as int);
    if start == to {
        return None;
    }
    let mut value: i64 = 0;
    let mut too_large = false;
    let mut i: usize = start;
    assert(digits.take(0) =~= Seq::<char>::empty());
    while i < to
        invariant
            from <= start <= i <= to,
            to <= chars.len(),
            digits == chars@.subrange(start as int, to as int),
            digits == unsigned_part(chars@.subrange(from as int, to as int)),
            all_digits(digits.take(i - start)),
            !too_large ==> value == decimal_value(digits.take(i - start)) && 0 <= value
                <= i32::MAX,
            too_large ==> decimal_value(digits.take(i - start)) > i32::MAX,
        decreases to - i,
    {
        let c: char = chars[i];
        let ghost before = digits.take(i - start);
        let ghost after = digits.take(i - start + 1);
        proof {
            assert(digits[i - start] == c);
            assert(after.drop_last() =~= before);
            assert(after.last() == c);
        }
        if c < '0' || c > '9' {
            proof {
                assert(!is_digit(digits[i - start]));
            }
            return None;
        }
        assert(all_digits(after)) by {
            assert forall|j: int| 0 <= j < after.len() implies is_digit(#[trigger] after[j]) by {
                if j < before.len() {
                    assert(after[j] == before[j]);
                }
            }
        }
        let d: i64 = (c as u32 - '0' as u32) as i64;
        assert(d == digit_value(c));
        if !too_large {
            value = value * 10 + d;
            if value > 0x7fff_ffff {
                too_large = true;
            }
        } else {
            proof {
                lemma_decimal_value_nonnegative(before);
            }
        }
        i += 1;
    }
    assert(digits.take(to - start) == digits);
    if too_large || value == 0 {
        None
    } else {
        Some(value as i32)
    }
}

/// The largest width and height of a screenshot, read from a text such as
/// `512x512`. Where the text has no `x`, or either side is no positive
/// number, both are 256.
pub fn parse_max_size(size: &str) -> (r: (i32, i32))
    ensures
        r == max_size_of(size@),
        r.0 > 0 && r.1 > 0,
{
    let chars = chars_of(size);
    let mut k: usize = 0;
    while k < chars.len() && chars[k] != 'x'
        invariant
            k <= chars.len(),
            forall|j: int| 0 <= j < k ==> chars@[j] != 'x',
        decreases chars.len() - k,
    {
        k += 1;
    }
    if k == chars.len() {
        assert(!exists|n: int| is_first_x(chars@, n));
        return (DEFAULT_MAX_SIZE, DEFAULT_MAX_SIZE);
    }
    proof {
        assert(is_first_x(chars@, k as int));
        let n = choose|n: int| is_first_x(chars@, n);
        assert(n == k);
        assert(chars@.take(k as int) =~= chars@.subrange(0, k as int));
        assert(chars@.skip(k + 1) =~= chars@.subrange(k + 1, chars.len() as int));
    }
    let width = parse_positive(&chars, 0, k);
    let height = parse_positive(&chars, k + 1, chars.len());
    match (width, height) {
        (Some(w), Some(h)) => (w, h),
        _ => (DEFAULT_MAX_SIZE, DEFAULT_MAX_SIZE),
    }
}

} // verus!
