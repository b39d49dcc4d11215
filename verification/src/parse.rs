//! Decimal parsing of caller-supplied value strings.
//!
//! A candidate value is well-formed when it is an optional leading `'+'`
//! followed by one or more decimal digits — exactly the strings Rust's
//! unsigned integer parsing accepts, overflow aside. The numeric value of
//! a well-formed string is unbounded here; the executable parser bounds it
//! to the sixteen-bit range the gateway's domains live in.

use vstd::prelude::*;
use crate::chars::{digit, digit_val, digit_value, is_digit};

verus! {

/// Every character of `s` is a decimal digit.
pub open spec fn all_digits(s: Seq<char>) -> bool {
    forall|i: int| 0 <= i < s.len() ==> is_digit(#[trigger] s[i])
}

/// The numeric value of a digit string, most significant digit first.
pub open spec fn dec_val(s: Seq<char>) -> int
    decreases s.len(),
{
    if s.len() == 0 {
        0
    } else {
        dec_val(s.drop_last()) * 10 + digit_val(s.last())
    }
}

/// The digits of a candidate value: the string with a single leading
/// `'+'` sign, if any, removed.
pub open spec fn digits_part(s: Seq<char>) -> Seq<char> {
    if s.len() > 0 && s[0] == '+' {
        s.drop_first()
    } else {
        s
    }
}

/// A well-formed decimal string: an optional leading `'+'` followed by
/// at least one digit and nothing else.
pub open spec fn is_dec_str(s: Seq<char>) -> bool {
    digits_part(s).len() > 0 && all_digits(digits_part(s))
}

/// The numeric value of a well-formed decimal string.
pub open spec fn dec_str_val(s: Seq<char>) -> int {
    dec_val(digits_part(s))
}

/// The value of a digit string is never negative.
pub proof fn lemma_dec_val_nonneg(s: Seq<char>)
    requires
        all_digits(s),
    ensures
        dec_val(s) >= 0,
    decreases s.len(),
{
    if s.len() > 0 {
        assert(all_digits(s.drop_last()));
        lemma_dec_val_nonneg(s.drop_last());
    }
}

/// Dropping trailing digits never increases the value: the value of a
/// prefix of a digit string is at most the value of the whole.
pub proof fn lemma_dec_val_prefix(s: Seq<char>, i: int)
    requires
        all_digits(s),
        0 <= i <= s.len(),
    ensures
        dec_val(s.subrange(0, i)) <= dec_val(s),
    decreases s.len() - i,
{
    if i == s.len() {
        assert(s.subrange(0, i) =~= s);
    } else {
        let t = s.subrange(0, s.len() - 1);
        assert(all_digits(t));
        assert(t =~= s.drop_last());
        lemma_dec_val_nonneg(t);
        assert(dec_val(s) == dec_val(t) * 10 + digit_val(s.last()));
        lemma_dec_val_prefix(t, i);
        assert(t.subrange(0, i) =~= s.subrange(0, i));
    }
}

/// Parses a candidate value as an unsigned sixteen-bit decimal.
///
/// Returns the value exactly when the string is well-formed and its value
/// fits; returns nothing on any malformed or too-large input, as Rust's
/// `u16` parsing would fail there.
pub fn parse_u16(s: &str) -> (r: Option<u16>)
    ensures
        is_dec_str(s@) && dec_str_val(s@) <= u16::MAX ==> r == Some(dec_str_val(s@) as u16),
        !(is_dec_str(s@) && dec_str_val(s@) <= u16::MAX) ==> r is None,
{
    let n = s.unicode_len();
    if n == 0 {
        return None;
    }
    let start: usize = if s.get_char(0) == '+' {
        1
    } else {
        0
    };
    let ghost ds: Seq<char> = digits_part(s@);
    proof {
        assert(ds =~= s@.subrange(start as int, n as int));
    }
    if start == n {
        // a bare sign has no digits
        return None;
    }
    // first pass: the characters after the sign must all be digits
    let mut i: usize = start;
    while i < n
        invariant
            start <= i <= n,
            n == s@.len(),
            start == 0 || (start == 1 && s@[0] == '+'),
            ds == digits_part(s@),
            ds == s@.subrange(start as int, n as int),
            forall|k: int| start <= k < i ==> is_digit(#[trigger] s@[k]),
        decreases n - i,
    {
        if !digit(s.get_char(i)) {
            proof {
                assert(ds[i - start] == s@[i as int]);
                assert(!all_digits(ds));
            }
            return None;
        }
        i = i + 1;
    }
    proof {
        assert forall|k: int| 0 <= k < ds.len() implies is_digit(#[trigger] ds[k]) by {
            assert(ds[k] == s@[k + start]);
        }
        assert(all_digits(ds));
    }
    // second pass: accumulate, refusing values beyond the sixteen-bit range
    let mut acc: u32 = 0;
    let mut j: usize = start;
    while j < n
        invariant
            start <= j <= n,
            n == s@.len(),
            ds == digits_part(s@),
            ds == s@.subrange(start as int, n as int),
            all_digits(ds),
            ds.len() == n - start,
            acc == dec_val(ds.subrange(0, j - start)),
            acc <= u16::MAX,
        decreases n - j,
    {
        let c = s.get_char(j);
        proof {
            assert(ds[j - start] == s@[j as int]);
        }
        let d = digit_value(c);
        let next: u32 = acc * 10 + d;
        proof {
            assert(ds.subrange(0, j - start + 1).drop_last() =~= ds.subrange(0, j - start));
            assert(ds.subrange(0, j - start + 1).last() == ds[j - start]);
        }
        if next > 65535 {
            proof {
                assert(dec_val(ds.subrange(0, j - start + 1)) == acc * 10 + d);
                lemma_dec_val_prefix(ds, j - start + 1);
                assert(dec_val(ds) >= acc * 10 + d);
            }
            return None;
        }
        acc = next;
        j = j + 1;
    }
    proof {
        assert(ds.subrange(0, n - start) =~= ds);
        assert(dec_str_val(s@) == acc);
    }
    Some(acc as u16)
}

/// Parses a candidate value as an unsigned eight-bit decimal, the range
/// most attribute domains live in.
pub fn parse_u8(s: &str) -> (r: Option<u8>)
    ensures
        is_dec_str(s@) && dec_str_val(s@) <= u8::MAX ==> r == Some(dec_str_val(s@) as u8),
        !(is_dec_str(s@) && dec_str_val(s@) <= u8::MAX) ==> r is None,
{
    match parse_u16(s) {
        Some(v) => if v <= 255 {
            proof {
                if is_dec_str(s@) {
                    lemma_dec_val_nonneg(digits_part(s@));
                }
            }
            Some(v as u8)
        } else {
            proof {
                if is_dec_str(s@) {
                    lemma_dec_val_nonneg(digits_part(s@));
                }
            }
            None
        },
        None => None,
    }
}

} // verus!
