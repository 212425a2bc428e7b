//! Text helpers of the horse matcher panel.

use vstd::prelude::*;
use crate::text::{chars_of, find_exec, find_text, lemma_find_text, slice_chars, string_of};

verus! {

/// The date part of a start time: what comes before the first `T`, or the
/// whole text when there is none.
pub open spec fn spec_start_date_label(start_at: Seq<char>) -> Seq<char> {
    match find_text(start_at, seq!['T']) {
        Some(i) => start_at.take(i),
        None => start_at,
    }
}

pub fn start_date_label(start_at: &str) -> (r: String)
    ensures
        r@ == spec_start_date_label(start_at@),
{
    let v = chars_of(start_at);
    let t = vec!['T'];
    assert(t@ =~= seq!['T']);
    match find_exec(&v, &t) {
        Some(i) => {
            proof {
                lemma_find_text(v@, t@);
            }
            let d = slice_chars(&v, 0, i);
            assert(d@ =~= v@.take(i as int));
            string_of(&d)
        },
        None => start_at.to_owned(),
    }
}

} // verus!
