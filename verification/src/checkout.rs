//! Name computations of the checkout operation: stripping the remote
//! prefix from a branch name and flattening it for use as a path segment.

use vstd::prelude::*;
use vstd::string::StrSliceExecFns;
use crate::strutil::{push_char, spec_starts_with, str_starts_with};

verus! {

/// The branch name with a leading `origin/` removed, if present.
pub open spec fn spec_parse_branch_name(s: Seq<char>) -> Seq<char> {
    if spec_starts_with(s, "origin/"@) {
        s.skip("origin/"@.len() as int)
    } else {
        s
    }
}

/// Strips a leading `origin/` from a remote branch name.
pub fn parse_branch_name(remote_branch: &str) -> (r: &str)
    ensures
        r@ == spec_parse_branch_name(remote_branch@),
{
    proof {
        reveal_strlit("origin/");
    }
    if str_starts_with(remote_branch, "origin/") {
        let n = remote_branch.unicode_len();
        let r = remote_branch.substring_char(7, n);
        proof {
            assert(remote_branch@.subrange(7, remote_branch@.len() as int) =~= remote_branch@.skip(
                7,
            ));
        }
        r
    } else {
        remote_branch
    }
}

/// The branch name with every slash replaced by a hyphen.
pub open spec fn spec_sanitize_branch(s: Seq<char>) -> Seq<char> {
    Seq::new(s.len(), |i: int| if s[i] == '/' { '-' } else { s[i] })
}

/// Replaces every slash by a hyphen, so that a branch name becomes a
/// single path segment.
pub fn sanitize_branch_for_path(branch: &str) -> (r: String)
    ensures
        r@ == spec_sanitize_branch(branch@),
{
    let n = branch.unicode_len();
    let mut out = String::new();
    let mut i: usize = 0;
    assert(out@ =~= spec_sanitize_branch(branch@).take(0));
    while i < n
        invariant
            n == branch@.len(),
            i <= n,
            out@ =~= spec_sanitize_branch(branch@).take(i as int),
        decreases n - i,
    {
        let c = branch.get_char(i);
        if c == '/' {
            push_char(&mut out, '-');
        } else {
            push_char(&mut out, c);
        }
        proof {
            assert(out@ =~= spec_sanitize_branch(branch@).take(i + 1));
        }
        i = i + 1;
    }
    proof {
        assert(spec_sanitize_branch(branch@).take(n as int) =~= spec_sanitize_branch(branch@));
    }
    out
}

} // verus!
