//! Small verified utilities on strings: equality by characters and the
//! quote substitution applied to submitted source code before it is embedded
//! into a shell command line.

use vstd::prelude::*;

verus! {

/// Character-by-character string equality, proved against the string views.
pub fn str_eq(a: &str, b: &str) -> (r: bool)
    ensures
        r == (a@ == b@),
{
    let a_len = a.unicode_len();
    let b_len = b.unicode_len();
    if a_len != b_len {
        proof {
            assert(a@.len() != b@.len());
        }
        return false;
    }
    let mut i: usize = 0;
    while i < a_len
        invariant
            a_len == a@.len(),
            b_len == b@.len(),
            a_len == b_len,
            i <= a_len,
            forall|j: int| 0 <= j < i ==> a@[j] == b@[j],
        decreases a_len - i,
    {
        if a.get_char(i) != b.get_char(i) {
            return false;
        }
        i += 1;
    }
    proof {
        assert(a@ =~= b@);
    }
    true
}

/// The quote substitution applied to a character sequence: every single
/// quote becomes a double quote, all other characters are kept.
pub open spec fn spec_swap_quotes(s: Seq<char>) -> Seq<char> {
    s.map_values(|c: char| if c == '\'' { '"' } else { c })
}

/// Rewrites single quotes to double quotes, one character at a time.
///
/// This is the naive escaping the service applies before embedding submitted
/// code into a shell command line; it is a documented weakness of the design
/// (the container's isolation is the real sandbox, not this substitution),
/// kept here deliberately rather than silently replaced.
pub fn swap_quotes(s: &str) -> (r: String)
    ensures
        r@ == spec_swap_quotes(s@),
{
    let len = s.unicode_len();
    let mut out = String::new();
    let mut i: usize = 0;
    while i < len
        invariant
            len == s@.len(),
            i <= len,
            out@ == spec_swap_quotes(s@.take(i as int)),
        decreases len - i,
    {
        proof {
            reveal_strlit("\"");
            assert(spec_swap_quotes(s@.take(i as int + 1)) =~= spec_swap_quotes(
                s@.take(i as int),
            ).push(if s@[i as int] == '\'' { '"' } else { s@[i as int] }));
        }
        let c = s.get_char(i);
        if c == '\'' {
            out.append("\"");
            proof {
                assert("\""@ =~= seq!['"']);
                assert(out@ =~= spec_swap_quotes(s@.take(i as int)).push('"'));
            }
        } else {
            let piece = s.substring_char(i, i + 1);
            proof {
                assert(s@.subrange(i as int, i as int + 1) =~= seq![s@[i as int]]);
            }
            out.append(piece);
            proof {
                assert(out@ =~= spec_swap_quotes(s@.take(i as int)).push(s@[i as int]));
            }
        }
        i += 1;
    }
    proof {
        assert(s@.take(len as int) =~= s@);
    }
    out
}

} // verus!
