//! The output truncator: bounds returned text to a configured character
//! ceiling, appending a fixed marker when anything was cut off.

use vstd::prelude::*;

verus! {

/// The marker appended to truncated output, on a new line.
pub open spec fn spec_truncation_marker() -> Seq<char> {
    "...\n[Output truncated]"@
}

/// What truncation returns: text within the limit is kept unchanged; longer
/// text is cut to its first `limit` characters with the marker appended.
pub open spec fn spec_truncate(s: Seq<char>, limit: int) -> Seq<char> {
    if s.len() <= limit {
        s
    } else {
        s.take(limit) + spec_truncation_marker()
    }
}

/// Bounds `output` to `max_output_size` characters, counting characters
/// rather than bytes so multi-byte characters are never split.
pub fn truncate_output(output: String, max_output_size: usize) -> (r: String)
    ensures
        r@ == spec_truncate(output@, max_output_size as int),
{
    let len = output.as_str().unicode_len();
    if len > max_output_size {
        let prefix = output.as_str().substring_char(0, max_output_size);
        let truncated = prefix.to_owned().concat("...\n[Output truncated]");
        proof {
            assert(output@.subrange(0, max_output_size as int) =~= output@.take(
                max_output_size as int,
            ));
        }
        truncated
    } else {
        output
    }
}

/// Truncation never rewrites text that fits: output at or under the limit —
/// in particular output of exactly the limit's length — comes back
/// unchanged, so truncating text of an already-truncated length again with
/// the same limit is the identity. Output even one character over the limit
/// is cut to the limit and ends with the truncation marker.
pub proof fn lemma_truncate_idempotent(s: Seq<char>, limit: int)
    requires
        limit >= 0,
    ensures
        s.len() <= limit ==> spec_truncate(s, limit) == s,
        s.len() > limit ==> spec_truncate(s.take(limit), limit) == s.take(limit),
        s.len() > limit ==> spec_truncate(s, limit).skip(limit) == spec_truncation_marker(),
        s.len() > limit ==> spec_truncate(s, limit).take(limit) == s.take(limit),
{
    if s.len() > limit {
        assert(spec_truncate(s, limit).skip(limit) =~= spec_truncation_marker());
        assert(spec_truncate(s, limit).take(limit) =~= s.take(limit));
    }
}

} // verus!
