//! Interpreting the version-control backend's output: the worktree
//! listing, the symbolic ref of the default branch, and the PR host's
//! head-branch answer.  The subprocesses themselves run outside the
//! library; only their text arrives here.

use vstd::prelude::*;
use vstd::string::{StrSliceExecFns, StringExecFns};
use crate::errors::{GjError, GjErrorV};
use crate::strutil::{spec_starts_with, spec_trim, str_starts_with, trim_str};

verus! {

/// The position of the newline ending the line that starts at `i`, or the
/// end of the text.
pub open spec fn line_end(s: Seq<char>, i: int) -> int
    decreases s.len() - i,
{
    if i < 0 || i >= s.len() {
        s.len() as int
    } else if s[i] == '\n' {
        i
    } else {
        line_end(s, i + 1)
    }
}

/// `line_end` stays between its start and the end of the text.
pub proof fn lemma_line_end_bounds(s: Seq<char>, i: int)
    requires
        0 <= i <= s.len(),
    ensures
        i <= line_end(s, i) <= s.len(),
    decreases s.len() - i,
{
    if i < s.len() && s[i] != '\n' {
        lemma_line_end_bounds(s, i + 1);
    }
}

/// Reading a porcelain worktree listing from position `i` with `cur` as
/// the most recently announced worktree path: `Some(cur')` when a line
/// names the wanted branch (with `cur'` the path announced before it),
/// `None` when no line does.
pub open spec fn sp_find_worktree(
    s: Seq<char>,
    i: int,
    cur: Option<Seq<char>>,
    branch: Seq<char>,
) -> Option<Option<Seq<char>>>
    decreases s.len() + 1 - i,
    via sp_find_worktree_dec
{
    if i < 0 || i >= s.len() {
        None
    } else {
        let j = line_end(s, i);
        let line = s.subrange(i, j);
        if spec_starts_with(line, "worktree "@) {
            sp_find_worktree(s, j + 1, Some(line.skip("worktree "@.len() as int)), branch)
        } else if spec_starts_with(line, "branch refs/heads/"@) && line.skip(
            "branch refs/heads/"@.len() as int,
        ) == branch {
            Some(cur)
        } else {
            sp_find_worktree(s, j + 1, cur, branch)
        }
    }
}

#[via_fn]
proof fn sp_find_worktree_dec(s: Seq<char>, i: int, cur: Option<Seq<char>>, branch: Seq<char>) {
    if 0 <= i < s.len() {
        lemma_line_end_bounds(s, i);
    }
}

/// Finds, in the backend's porcelain worktree listing, the path of the
/// worktree that has `branch` checked out: the path announced by the last
/// `worktree ` line before the first matching `branch refs/heads/` line.
pub fn find_worktree_in_listing(listing: &str, branch: &str) -> (r: Option<String>)
    ensures
        match r {
            Some(p) => sp_find_worktree(listing@, 0, None, branch@) == Some(Some(p@)),
            None => sp_find_worktree(listing@, 0, None, branch@) is None || sp_find_worktree(
                listing@,
                0,
                None,
                branch@,
            ) == Some(None::<Seq<char>>),
        },
{
    let n = listing.unicode_len();
    let mut i: usize = 0;
    let mut cur: Option<String> = None;
    while i < n
        invariant
            n == listing@.len(),
            i <= n,
            sp_find_worktree(listing@, 0, None, branch@) == sp_find_worktree(
                listing@,
                i as int,
                match cur {
                    Some(ref c) => Some(c@),
                    None => None,
                },
                branch@,
            ),
        decreases n - i,
    {
        proof {
            reveal_strlit("worktree ");
            reveal_strlit("branch refs/heads/");
        }
        let ghost cur0: Option<Seq<char>> = match cur {
            Some(ref c) => Some(c@),
            None => None,
        };
        let j = find_line_end(listing, n, i);
        let ghost line_v = listing@.subrange(i as int, j as int);
        let line = listing.substring_char(i, j);
        proof {
            assert(line@ == line_v);
        }
        if str_starts_with(line, "worktree ") {
            let m = line.unicode_len();
            let tail = line.substring_char(9, m);
            proof {
                assert(tail@ =~= line_v.skip(9));
                assert(sp_find_worktree(listing@, i as int, cur0, branch@) == sp_find_worktree(
                    listing@,
                    j + 1,
                    Some(line_v.skip(9)),
                    branch@,
                ));
            }
            cur = Some(String::from_str(tail));
        } else if str_starts_with(line, "branch refs/heads/") {
            let m = line.unicode_len();
            let tail = line.substring_char(18, m);
            proof {
                assert(tail@ =~= line_v.skip(18));
            }
            if crate::strutil::str_eq(tail, branch) {
                proof {
                    assert(sp_find_worktree(listing@, i as int, cur0, branch@) == Some(cur0));
                }
                return cur;
            }
            proof {
                assert(sp_find_worktree(listing@, i as int, cur0, branch@) == sp_find_worktree(
                    listing@,
                    j + 1,
                    cur0,
                    branch@,
                ));
            }
        } else {
            proof {
                assert(sp_find_worktree(listing@, i as int, cur0, branch@) == sp_find_worktree(
                    listing@,
                    j + 1,
                    cur0,
                    branch@,
                ));
            }
        }
        if j < n {
            i = j + 1;
        } else {
            proof {
                let cv = match cur {
                    Some(ref c) => Some(c@),
                    None => None,
                };
                assert(sp_find_worktree(listing@, j + 1, cv, branch@) is None);
                assert(sp_find_worktree(listing@, n as int, cv, branch@) is None);
            }
            i = n;
        }
    }
    proof {
        assert(sp_find_worktree(listing@, n as int, match cur {
            Some(ref c) => Some(c@),
            None => None,
        }, branch@) is None);
    }
    None
}

/// Finds the end of the line starting at `i`.
fn find_line_end(s: &str, n: usize, i: usize) -> (r: usize)
    requires
        n == s@.len(),
        i <= n,
    ensures
        r == line_end(s@, i as int),
        i <= r <= n,
{
    let mut p = i;
    while p < n
        invariant
            n == s@.len(),
            i <= p <= n,
            line_end(s@, i as int) == line_end(s@, p as int),
        decreases n - p,
    {
        if s.get_char(p) == '\n' {
            return p;
        }
        p = p + 1;
    }
    p
}

/// The branch named by the symbolic ref of the remote's HEAD, when the
/// ref has the expected prefix.
pub open spec fn spec_default_branch_of_ref(s: Seq<char>) -> Option<Seq<char>> {
    if spec_starts_with(s, "refs/remotes/origin/"@) {
        Some(s.skip("refs/remotes/origin/"@.len() as int))
    } else {
        None
    }
}

/// Extracts the default branch from the backend's symbolic-ref answer:
/// the text after `refs/remotes/origin/`, if that prefix is there.
pub fn default_branch_of_ref(refname: &str) -> (r: Option<String>)
    ensures
        match r {
            Some(b) => spec_default_branch_of_ref(refname@) == Some(b@),
            None => spec_default_branch_of_ref(refname@) is None,
        },
{
    proof {
        reveal_strlit("refs/remotes/origin/");
    }
    if str_starts_with(refname, "refs/remotes/origin/") {
        let n = refname.unicode_len();
        let tail = refname.substring_char(20, n);
        proof {
            assert(tail@ =~= refname@.skip(20));
        }
        Some(String::from_str(tail))
    } else {
        None
    }
}

/// Interprets the PR host's head-branch answer: the trimmed text, or an
/// error naming the PR when the answer is blank.
pub fn pr_branch_from_output(number: u32, raw: &str) -> (r: Result<String, GjError>)
    ensures
        match r {
            Ok(b) => spec_trim(raw@).len() > 0 && b@ == spec_trim(raw@),
            Err(e) => spec_trim(raw@).len() == 0 && e@ == (GjErrorV::PrBranchMissing {
                number: number,
            }),
        },
{
    let trimmed = trim_str(raw);
    if trimmed.as_str().unicode_len() == 0 {
        Err(GjError::PrBranchMissing { number })
    } else {
        Ok(trimmed)
    }
}

} // verus!
