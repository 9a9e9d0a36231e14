//! A verified decimal reading of text as a signed 64-bit integer, with the
//! exact acceptance rule of the standard numeric parser: an optional sign,
//! one or more digits, nothing else, and a value that fits.

use vstd::prelude::*;

verus! {

/// A decimal digit.
pub open spec fn is_digit(c: char) -> bool {
    48 <= c as u32 <= 57
}

/// The value of one decimal digit.
pub open spec fn spec_digit(c: char) -> int
    recommends
        is_digit(c),
{
    c as u32 - 48
}

/// Every character of `s` is a decimal digit.
pub open spec fn all_digits(s: Seq<char>) -> bool {
    forall|i: int| 0 <= i < s.len() ==> is_digit(#[trigger] s[i])
}

/// The non-negative value of a digit string read in base ten.
pub open spec fn digits_val(s: Seq<char>) -> int
    decreases s.len(),
{
    if s.len() == 0 {
        0
    } else {
        digits_val(s.drop_last()) * 10 + spec_digit(s.last())
    }
}

/// What reading `s` as an `i64` yields: `Some` exactly when `s` is an
/// optional sign followed by one or more digits and the signed value fits.
pub open spec fn spec_parse_i64(s: Seq<char>) -> Option<i64> {
    let digits = if s.len() > 0 && (s[0] == '-' || s[0] == '+') {
        s.drop_first()
    } else {
        s
    };
    let negative = s.len() > 0 && s[0] == '-';
    if digits.len() == 0 || !all_digits(digits) {
        None
    } else {
        let v = if negative {
            -digits_val(digits)
        } else {
            digits_val(digits)
        };
        if i64::MIN <= v <= i64::MAX {
            Some(v as i64)
        } else {
            None
        }
    }
}

proof fn lemma_digits_val_nonneg(s: Seq<char>)
    requires
        all_digits(s),
    ensures
        digits_val(s) >= 0,
    decreases s.len(),
{
    if s.len() > 0 {
        assert(all_digits(s.drop_last()));
        lemma_digits_val_nonneg(s.drop_last());
    }
}

/// A digit string is worth at least any of its prefixes.
proof fn lemma_digits_val_prefix(s: Seq<char>, k: int)
    requires
        all_digits(s),
        0 <= k <= s.len(),
    ensures
        digits_val(s.take(k)) <= digits_val(s),
    decreases s.len() - k,
{
    if k == s.len() {
        assert(s.take(k) =~= s);
    } else {
        assert(s.take(k + 1).drop_last() =~= s.take(k));
        assert(all_digits(s.take(k)));
        lemma_digits_val_nonneg(s.take(k));
        assert(digits_val(s.take(k + 1)) == digits_val(s.take(k)) * 10 + spec_digit(
            s.take(k + 1).last(),
        ));
        lemma_digits_val_prefix(s, k + 1);
    }
}

/// Reads `s` as a signed decimal numeral, exactly as
/// [`spec_parse_i64`] describes.
pub fn parse_i64(s: &str) -> (r: Option<i64>)
    ensures
        r == spec_parse_i64(s@),
{
    let len = s.unicode_len();
    if len == 0 {
        return None;
    }
    let first = s.get_char(0);
    let negative = first == '-';
    let has_sign = negative || first == '+';
    let start: usize = if has_sign {
        1
    } else {
        0
    };
    let ghost digits: Seq<char> = s@.subrange(start as int, len as int);
    proof {
        if has_sign {
            assert(digits =~= s@.drop_first());
        } else {
            assert(digits =~= s@);
        }
    }
    if start == len {
        return None;
    }
    let mut acc: i64 = 0;
    let mut i: usize = start;
    while i < len
        invariant
            len == s@.len(),
            start <= i <= len,
            start < len,
            start == 0 || start == 1,
            negative == (s@[0] == '-'),
            has_sign == (s@[0] == '-' || s@[0] == '+'),
            has_sign == (start == 1),
            digits == s@.subrange(start as int, len as int),
            digits == if has_sign {
                s@.drop_first()
            } else {
                s@
            },
            all_digits(digits.take(i - start)),
            acc == -digits_val(digits.take(i - start)),
            acc <= 0,
        decreases len - i,
    {
        let c = s.get_char(i);
        let u = c as u32;
        proof {
            assert(digits[i - start] == s@[i as int]);
        }
        if u < 48 || u > 57 {
            proof {
                assert(!is_digit(digits[i - start]));
                assert(!all_digits(digits));
            }
            return None;
        }
        let d = (u - 48) as i64;
        proof {
            assert(digits.take(i - start + 1).drop_last() =~= digits.take(i - start));
            assert(digits.take(i - start + 1).last() == digits[i - start]);
            assert(digits_val(digits.take(i - start + 1)) == digits_val(digits.take(i - start))
                * 10 + spec_digit(digits[i - start]));
        }
        let stepped = match acc.checked_mul(10) {
            Some(m) => m.checked_sub(d),
            None => None,
        };
        match stepped {
            Some(v) => {
                acc = v;
            },
            None => {
                proof {
                    assert(digits_val(digits.take(i - start + 1)) > 0x8000_0000_0000_0000);
                    if all_digits(digits) {
                        lemma_digits_val_prefix(digits, i - start + 1);
                        assert(digits_val(digits) > 0x8000_0000_0000_0000);
                    }
                }
                return None;
            },
        }
        i += 1;
    }
    proof {
        assert(digits.take(len - start) =~= digits);
    }
    if negative {
        Some(acc)
    } else {
        match 0i64.checked_sub(acc) {
            Some(v) => Some(v),
            None => None,
        }
    }
}

} // verus!
