//! Text helpers of the trading markets panel.

use vstd::prelude::*;
use vstd::string::StringSliceAdditionalSpecFns;
use crate::text::{chars_of, trim, trim_exec};

verus! {

/// `value` cut to `limit` bytes: a longer text keeps its first
/// `limit - 3` bytes (none when `limit` is below three) followed by `...`.
pub open spec fn spec_truncate(value: &str, limit: usize) -> Seq<char> {
    let b = value.spec_bytes();
    if b.len() <= limit {
        value@
    } else {
        vstd::utf8::decode_utf8(b.subrange(0, limit.saturating_sub(3) as int)) + "..."@
    }
}

/// Cuts `value` to at most `limit` bytes, marking the cut with `...`; the
/// cut must fall between characters.
pub fn truncate(value: &str, limit: usize) -> (r: String)
    requires
        value.spec_bytes().len() > limit ==> vstd::utf8::is_char_boundary(
            value.spec_bytes(),
            limit.saturating_sub(3) as int,
        ),
    ensures
        r@ == spec_truncate(value, limit),
{
    if value.as_bytes().len() <= limit {
        return value.to_owned();
    }
    let cut = limit.saturating_sub(3);
    let (head, _tail) = value.split_at(cut);
    proof {
        broadcast use vstd::utf8::encode_utf8_decode_utf8;
        assert(head.spec_bytes() == vstd::utf8::encode_utf8(head@));
    }
    let mut r = head.to_owned();
    r.append("...");
    r
}

/// `value`, or `fallback` when `value` is blank.
pub open spec fn spec_if_empty(value: Seq<char>, fallback: Seq<char>) -> Seq<char> {
    if trim(value).len() == 0 {
        fallback
    } else {
        value
    }
}

pub fn if_empty(value: &str, fallback: &str) -> (r: String)
    ensures
        r@ == spec_if_empty(value@, fallback@),
{
    if trim_exec(&chars_of(value)).len() == 0 {
        return fallback.to_owned();
    }
    value.to_owned()
}

} // verus!
