//! Parsing a column value as a signed 64-bit integer.
//!
//! A result-set column arrives as text; the metric reduction needs to know
//! whether that text is an integer literal and, if so, its value. The grammar
//! is the usual one for signed decimal integers: an optional `+` or `-` sign
//! followed by one or more decimal digits, with the value in `i64` range.

use vstd::prelude::*;

verus! {

/// `c` is an ASCII decimal digit.
pub open spec fn is_digit_char(c: char) -> bool {
    48 <= (c as u32) && (c as u32) <= 57
}

/// Numeric value of a digit character.
pub open spec fn digit_val(c: char) -> int {
    (c as u32) - 48
}

/// Every character of `s` is a decimal digit.
pub open spec fn all_digits(s: Seq<char>) -> bool {
    forall|i: int| 0 <= i < s.len() ==> is_digit_char(#[trigger] s[i])
}

/// The non-negative integer denoted by a digit sequence (most significant
/// digit first); meaningful when `all_digits(s)`.
pub open spec fn digits_to_int(s: Seq<char>) -> int
    decreases s.len(),
{
    if s.len() == 0 {
        0
    } else {
        10 * digits_to_int(s.drop_last()) + digit_val(s.last())
    }
}

/// The string starts with a minus sign.
pub open spec fn spec_is_neg(s: Seq<char>) -> bool {
    s.len() > 0 && s[0] == '-'
}

/// The digits of the literal: everything after an optional leading sign.
pub open spec fn spec_digits_part(s: Seq<char>) -> Seq<char> {
    if s.len() > 0 && (s[0] == '-' || s[0] == '+') {
        s.drop_first()
    } else {
        s
    }
}

/// The mathematical value the string denotes, meaningful when
/// `is_i64_string(s)` holds.
pub open spec fn spec_i64_value(s: Seq<char>) -> int {
    if spec_is_neg(s) {
        -digits_to_int(spec_digits_part(s))
    } else {
        digits_to_int(spec_digits_part(s))
    }
}

/// `s` is a signed decimal integer literal whose value fits in `i64`.
pub open spec fn is_i64_string(s: Seq<char>) -> bool {
    &&& spec_digits_part(s).len() > 0
    &&& all_digits(spec_digits_part(s))
    &&& i64::MIN <= spec_i64_value(s) <= i64::MAX
}

proof fn lemma_digits_nonneg(s: Seq<char>)
    requires
        all_digits(s),
    ensures
        digits_to_int(s) >= 0,
    decreases s.len(),
{
    if s.len() > 0 {
        assert(all_digits(s.drop_last()));
        lemma_digits_nonneg(s.drop_last());
    }
}

/// A digit string denotes at least as much as any of its prefixes.
proof fn lemma_digits_prefix_le(s: Seq<char>, k: int)
    requires
        all_digits(s),
        0 <= k <= s.len(),
    ensures
        digits_to_int(s.take(k)) <= digits_to_int(s),
    decreases s.len() - k,
{
    if k == s.len() {
        assert(s.take(k) =~= s);
    } else {
        assert(all_digits(s.drop_last()));
        assert(s.drop_last().take(k) =~= s.take(k));
        lemma_digits_prefix_le(s.drop_last(), k);
        lemma_digits_nonneg(s.drop_last());
        assert(digit_val(s.last()) >= 0);
    }
}

/// Parse `s` as a signed 64-bit integer: `Some(v)` exactly when `s` is a
/// well-formed decimal literal whose value `v` fits in `i64`.
pub fn parse_i64(s: &str) -> (r: Option<i64>)
    ensures
        match r {
            Some(v) => is_i64_string(s@) && v == spec_i64_value(s@),
            None => !is_i64_string(s@),
        },
{
    let n = s.unicode_len();
    if n == 0 {
        return None;
    }
    let first = s.get_char(0);
    let neg = first == '-';
    let signed = first == '-' || first == '+';
    let start: usize = if signed { 1 } else { 0 };
    proof {
        assert(spec_digits_part(s@) =~= s@.subrange(start as int, n as int));
        assert(spec_is_neg(s@) == neg);
    }
    if start == n {
        return None;
    }
    let limit: u128 = if neg {
        9223372036854775808
    } else {
        9223372036854775807
    };
    let mut acc: u128 = 0;
    let mut i: usize = start;
    while i < n
        invariant
            start <= i <= n,
            n == s@.len(),
            spec_digits_part(s@) == s@.subrange(start as int, n as int),
            spec_is_neg(s@) == neg,
            limit == (if neg { 0x8000_0000_0000_0000u128 } else { 0x7fff_ffff_ffff_ffffu128 }),
            all_digits(s@.subrange(start as int, i as int)),
            acc == digits_to_int(s@.subrange(start as int, i as int)),
            acc <= limit,
        decreases n - i,
    {
        let c = s.get_char(i);
        let u = c as u32;
        if u < 48 || u > 57 {
            proof {
                let ds = spec_digits_part(s@);
                assert(ds[i - start] == s@[i as int]);
                assert(!is_digit_char(ds[i - start]));
            }
            return None;
        }
        let d: u128 = (u - 48) as u128;
        proof {
            let before = s@.subrange(start as int, i as int);
            let after = s@.subrange(start as int, i + 1);
            assert(after.drop_last() =~= before);
            assert(after.last() == s@[i as int]);
        }
        acc = acc * 10 + d;
        i = i + 1;
        if acc > limit {
            proof {
                let ds = spec_digits_part(s@);
                if all_digits(ds) {
                    assert(ds.take(i - start) =~= s@.subrange(start as int, i as int));
                    lemma_digits_prefix_le(ds, i - start);
                    assert(digits_to_int(ds) > limit);
                }
            }
            return None;
        }
    }
    proof {
        assert(s@.subrange(start as int, i as int) =~= spec_digits_part(s@));
    }
    if neg {
        if acc == 9223372036854775808 {
            Some(i64::MIN)
        } else {
            Some(-(acc as i64))
        }
    } else {
        Some(acc as i64)
    }
}

} // verus!
