//! Reading integers, leniently.
//!
//! A token is an integer when it is an optional sign followed by at least
//! one decimal digit and its value fits in 64 bits. Conditions read every
//! other token as zero.

use vstd::prelude::*;
use crate::text::chars_of;

verus! {

/// Whether `c` is one of the ten decimal digits.
pub open spec fn is_digit(c: char) -> bool {
    '0' <= c <= '9'
}

/// The number that a decimal digit stands for.
pub open spec fn digit_value(c: char) -> int {
    c as int - '0' as int
}

/// Whether `d` is a run of at least one decimal digit.
pub open spec fn is_number(d: Seq<char>) -> bool {
    &&& d.len() > 0
    &&& forall|k: int| 0 <= k < d.len() ==> is_digit(#[trigger] d[k])
}

/// The value of a run of digits read in base ten.
pub open spec fn digits_value(d: Seq<char>) -> int
    decreases d.len(),
{
    if d.len() == 0 {
        0
    } else {
        10 * digits_value(d.drop_last()) + digit_value(d.last())
    }
}

/// Whether `s` begins with a plus or a minus sign.
pub open spec fn has_sign(s: Seq<char>) -> bool {
    s.len() > 0 && (s[0] == '-' || s[0] == '+')
}

/// The integer that `s` spells, if it spells one that fits in 64 bits.
pub open spec fn integer_of(s: Seq<char>) -> Option<int> {
    let digits = if has_sign(s) {
        s.drop_first()
    } else {
        s
    };
    let value = if has_sign(s) && s[0] == '-' {
        -digits_value(digits)
    } else {
        digits_value(digits)
    };
    if is_number(digits) && i64::MIN <= value <= i64::MAX {
        Some(value)
    } else {
        None
    }
}

/// The integer that `s` spells, and zero where it spells none.
pub open spec fn integer_or_zero(s: Seq<char>) -> int {
    match integer_of(s) {
        Some(value) => value,
        None => 0,
    }
}

/// The digit that stands for `d`, for `d` from 0 to 9.
pub open spec fn digit_char(d: int) -> char {
    ('0' as int + d) as char
}

/// The digits of `n` in base ten, without leading zeros.
pub open spec fn digits_of(n: nat) -> Seq<char>
    decreases n,
{
    if n < 10 {
        seq![digit_char(n as int)]
    } else {
        digits_of(n / 10).push(digit_char(n as int % 10))
    }
}

/// The usual decimal spelling of `n`: a minus sign where `n` is negative,
/// then its digits.
pub open spec fn decimal(n: int) -> Seq<char> {
    if n < 0 {
        seq!['-'] + digits_of((-n) as nat)
    } else {
        digits_of(n as nat)
    }
}

/// A longer run of digits is worth at least as much as any of its prefixes.
pub proof fn lemma_digits_value_grows(d: Seq<char>, k: int)
    requires
        0 <= k <= d.len(),
        forall|j: int| 0 <= j < d.len() ==> is_digit(#[trigger] d[j]),
    ensures
        0 <= digits_value(d.take(k)) <= digits_value(d),
    decreases d.len(),
{
    if d.len() == 0 {
        assert(d.take(k) =~= d);
    } else if k == d.len() {
        assert(d.take(k) =~= d);
        lemma_digits_value_grows(d.drop_last(), k - 1);
        assert(d.drop_last().take(k - 1) =~= d.drop_last());
    } else {
        lemma_digits_value_grows(d.drop_last(), k);
        assert(d.drop_last().take(k) =~= d.take(k));
    }
}

/// The digits of `n` are a number whose value is `n`.
pub proof fn lemma_digits_of(n: nat)
    ensures
        is_number(digits_of(n)),
        digits_value(digits_of(n)) == n,
    decreases n,
{
    if n < 10 {
        let d = digits_of(n);
        assert(d.drop_last() =~= Seq::<char>::empty());
        assert(digits_value(d.drop_last()) == 0);
    } else {
        lemma_digits_of(n / 10);
        let d = digits_of(n);
        assert(d.drop_last() =~= digits_of(n / 10));
        assert forall|k: int| 0 <= k < d.len() implies is_digit(#[trigger] d[k]) by {
            if k < d.len() - 1 {
                assert(d[k] == digits_of(n / 10)[k]);
            }
        }
    }
}

/// Reading the decimal spelling of an integer that fits in 64 bits gives
/// the integer back.
pub proof fn lemma_decimal_reads_back(n: int)
    requires
        i64::MIN <= n <= i64::MAX,
    ensures
        integer_of(decimal(n)) == Some(n),
        integer_or_zero(decimal(n)) == n,
{
    if n < 0 {
        let m = (-n) as nat;
        lemma_digits_of(m);
        assert(decimal(n).drop_first() =~= digits_of(m));
    } else {
        lemma_digits_of(n as nat);
        assert(is_digit(decimal(n)[0]));
    }
}

/// Reads `s` as a 64-bit integer.
pub fn parse_integer(s: &str) -> (value: Option<i64>)
    ensures
        match value {
            Some(v) => integer_of(s@) == Some(v as int),
            None => integer_of(s@) is None,
        },
{
    let chars = chars_of(s);
    let n = chars.len();
    let signed = n > 0 && (chars[0] == '-' || chars[0] == '+');
    let negative = signed && chars[0] == '-';
    let first: usize = if signed {
        1
    } else {
        0
    };
    if first == n {
        return None;
    }
    let ghost digits = if signed {
        s@.drop_first()
    } else {
        s@
    };
    let mut magnitude: u64 = 0;
    let mut i: usize = first;
    while i < n
        invariant
            chars@ == s@,
            n == chars@.len(),
            first <= i <= n,
            signed == has_sign(s@),
            first == if signed { 1usize } else { 0usize },
            digits == if signed { s@.drop_first() } else { s@ },
            digits.len() == n - first,
            forall|k: int| 0 <= k < i - first ==> is_digit(#[trigger] digits[k]),
            magnitude == digits_value(digits.take(i - first)),
            magnitude <= 0x8000_0000_0000_0000,
        decreases n - i,
    {
        let c = chars[i];
        assert(digits[i - first] == c);
        if !('0' <= c && c <= '9') {
            return None;
        }
        let d: u64 = (c as u64) - ('0' as u64);
        proof {
            let upto = digits.take(i - first + 1);
            assert(upto.drop_last() =~= digits.take(i - first));
            assert(upto.last() == c);
            assert(digits_value(upto) == 10 * magnitude + d);
            if 10 * magnitude + d > 0x8000_0000_0000_0000 {
                if is_number(digits) {
                    lemma_digits_value_grows(digits, i - first + 1);
                }
            }
        }
        if magnitude > (0x8000_0000_0000_0000 - d) / 10 {
            return None;
        }
        magnitude = 10 * magnitude + d;
        i += 1;
    }
    assert(digits.take(n - first) =~= digits);
    assert(is_number(digits));
    if negative {
        if magnitude == 0x8000_0000_0000_0000 {
            Some(i64::MIN)
        } else {
            Some(-(magnitude as i64))
        }
    } else if magnitude <= 0x7fff_ffff_ffff_ffff {
        Some(magnitude as i64)
    } else {
        None
    }
}

/// Reads `s` as a 64-bit integer, taking anything that is not one for zero.
pub fn parse_or_zero(s: &str) -> (value: i64)
    ensures
        value == integer_or_zero(s@),
{
    match parse_integer(s) {
        Some(v) => v,
        None => 0,
    }
}

} // verus!
