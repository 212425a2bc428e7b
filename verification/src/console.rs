//! The command line of the console program.

use vstd::prelude::*;
use crate::text::{chars_of, equals_str};

verus! {

pub open spec fn spec_usage_text() -> Seq<char> {
    "operator-console\n\nUsage:\n  operator-console\n\nOptions:\n  -h, --help    Show this help\n"@
}

/// The text printed for `--help`.
pub fn help_text() -> (r: &'static str)
    ensures
        r@ == spec_usage_text(),
{
    "operator-console\n\nUsage:\n  operator-console\n\nOptions:\n  -h, --help    Show this help\n"
}

pub open spec fn is_help_flag(arg: Seq<char>) -> bool {
    arg == "--help"@ || arg == "-h"@
}

/// Whether help was asked for: some argument after the program name is
/// `--help` or `-h`.
pub fn wants_help(args: &Vec<String>) -> (r: bool)
    ensures
        r == exists|i: int| 1 <= i < args@.len() && #[trigger] is_help_flag(args@[i]@),
{
    let n = args.len();
    let mut i: usize = 1;
    while i < n
        invariant
            n == args.len(),
            1 <= i,
            forall|j: int| 1 <= j < i && j < n ==> !#[trigger] is_help_flag(args@[j]@),
        decreases n - i,
    {
        let a = chars_of(args[i].as_str());
        if equals_str(&a, "--help") || equals_str(&a, "-h") {
            assert(is_help_flag(args@[i as int]@));
            return true;
        }
        i = i + 1;
    }
    false
}

} // verus!
