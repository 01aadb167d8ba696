//! Name computation of the pull-request operation.

use vstd::prelude::*;
use vstd::string::StringExecFns;
use crate::strutil::{spec_dec, u64_to_dec};

verus! {

/// The worktree directory name for a pull request number.
pub open spec fn spec_pr_worktree_name(n: u32) -> Seq<char> {
    "pr-"@ + spec_dec(n as nat)
}

/// The worktree directory name for a pull request: `pr-` followed by the
/// number in decimal.
pub fn pr_worktree_name(pr_number: u32) -> (r: String)
    ensures
        r@ == spec_pr_worktree_name(pr_number),
{
    let digits = u64_to_dec(pr_number as u64);
    String::from_str("pr-").concat(digits.as_str())
}

} // verus!
