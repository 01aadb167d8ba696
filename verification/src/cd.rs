//! The locate operation: display names of worktrees, name matching, and
//! the resolution of a name token to a unique worktree, an ambiguity, or
//! no match at all.

use vstd::prelude::*;
use vstd::string::{StrSliceExecFns, StringExecFns};
use crate::state::WorktreeState;
use crate::strutil::{
    find_first, find_last_slash_before, first_match_from, last_slash_before, str_eq,
    str_ends_with, spec_ends_with,
};

verus! {

/// The display name of a worktree path: the text after the managed-root
/// marker `worktrees/` when it occurs, else the last two segments.
pub open spec fn spec_display_name_cd(p: Seq<char>) -> Seq<char> {
    let f = first_match_from(p, "worktrees/"@, 0);
    if f >= 0 {
        p.skip(f + "worktrees/"@.len())
    } else {
        crate::list::spec_display_name(p)
    }
}

/// The display name of a worktree path, relative to the managed root.
pub fn get_display_name(path: &str) -> (r: String)
    ensures
        r@ == spec_display_name_cd(path@),
{
    proof {
        reveal_strlit("worktrees/");
    }
    match find_first(path, "worktrees/") {
        Some(f) => {
            let n = path.unicode_len();
            let r = path.substring_char(f + 10, n);
            proof {
                assert(path@.subrange(f + 10, n as int) =~= path@.skip(f + 10));
            }
            String::from_str(r)
        },
        None => crate::list::get_display_name(path),
    }
}

/// The last segment of a path: the text after its last separator.
pub open spec fn spec_last_segment(p: Seq<char>) -> Seq<char> {
    let j = last_slash_before(p, p.len() as int);
    if j < 0 {
        p
    } else {
        p.skip(j + 1)
    }
}

/// Whether a name token selects a worktree path: the token equals the
/// last path segment, or equals the display name, or is a trailing
/// segment-aligned suffix of the display name.
pub open spec fn cd_matches(p: Seq<char>, name: Seq<char>) -> bool {
    ||| spec_last_segment(p) == name
    ||| spec_display_name_cd(p) == name
    ||| spec_ends_with(spec_display_name_cd(p), seq!['/'] + name)
}

/// Tests whether a name token selects a worktree path.
pub fn matches_name(path: &str, name: &str) -> (r: bool)
    ensures
        r == cd_matches(path@, name@),
{
    let n = path.unicode_len();
    let last = match find_last_slash_before(path, n, n) {
        Some(j) => {
            let t = path.substring_char(j + 1, n);
            proof {
                assert(path@.subrange(j + 1, n as int) =~= path@.skip(j + 1));
            }
            String::from_str(t)
        },
        None => path.to_owned(),
    };
    if str_eq(last.as_str(), name) {
        return true;
    }
    let display = get_display_name(path);
    if str_eq(display.as_str(), name) {
        return true;
    }
    let suffix = String::from_str("/").concat(name);
    proof {
        reveal_strlit("/");
        assert(suffix@ =~= seq!['/'] + name@);
    }
    str_ends_with(display.as_str(), suffix.as_str())
}

/// The outcome of resolving a name token against the known records.
pub enum CdResolution {
    /// No record matches.
    NoMatch,
    /// Exactly one record matches.
    Unique { index: usize },
    /// Several records match; their indices, in record order.
    Ambiguous { indices: Vec<usize> },
}

/// Resolves a name token against the records: no match, a unique match,
/// or the full list of ambiguous candidates.
/// No record matches the token, except possibly the excluded index.
pub open spec fn no_other_match(
    states: Seq<WorktreeState>,
    name: Seq<char>,
    except: Option<int>,
) -> bool {
    forall|i: int|
        0 <= i < states.len() && (except is Some ==> i != except->0) ==> !cd_matches(
            (#[trigger] states[i])@.worktree_path,
            name,
        )
}

/// `indices` lists, in increasing order, exactly the records the token
/// matches, and there are at least two of them.
pub open spec fn ambiguous_ok(
    states: Seq<WorktreeState>,
    name: Seq<char>,
    indices: Seq<usize>,
) -> bool {
    &&& indices.len() >= 2
    &&& forall|k: int, l: int| 0 <= k < l < indices.len() ==> indices[k] < indices[l]
    &&& forall|k: int|
        0 <= k < indices.len() ==> (#[trigger] indices[k]) < states.len() && cd_matches(
            states[indices[k] as int]@.worktree_path,
            name,
        )
    &&& forall|i: int|
        0 <= i < states.len() && cd_matches((#[trigger] states[i])@.worktree_path, name)
            ==> exists|k: int| 0 <= k < indices.len() && indices[k] == i
}

#[verifier::rlimit(60)]
pub fn resolve_cd_target(states: &Vec<WorktreeState>, name: &str) -> (r: CdResolution)
    ensures
        match r {
            CdResolution::NoMatch => no_other_match(states@, name@, None),
            CdResolution::Unique { index } => index < states@.len() && cd_matches(
                states@[index as int]@.worktree_path,
                name@,
            ) && no_other_match(states@, name@, Some(index as int)),
            CdResolution::Ambiguous { indices } => ambiguous_ok(states@, name@, indices@),
        },
{
    let mut matching: Vec<usize> = Vec::new();
    let mut i: usize = 0;
    while i < states.len()
        invariant
            i <= states@.len(),
            forall|k: int, l: int| 0 <= k < l < matching@.len() ==> matching@[k] < matching@[l],
            forall|k: int|
                0 <= k < matching@.len() ==> (#[trigger] matching@[k]) < i && cd_matches(
                    states@[matching@[k] as int]@.worktree_path,
                    name@,
                ),
            forall|j: int|
                0 <= j < i && cd_matches((#[trigger] states@[j])@.worktree_path, name@)
                    ==> exists|k: int| 0 <= k < matching@.len() && matching@[k] == j,
        decreases states@.len() - i,
    {
        let ghost m0 = matching@;
        let is_match = matches_name(states[i].worktree_path.as_str(), name);
        if is_match {
            matching.push(i);
        }
        proof {
            assert forall|j: int|
                0 <= j < i + 1 && cd_matches((#[trigger] states@[j])@.worktree_path, name@)
                    implies exists|k: int| 0 <= k < matching@.len() && matching@[k] == j by {
                if j == i {
                    assert(matching@[matching@.len() - 1] == i);
                } else {
                    let k0 = choose|k: int| 0 <= k < m0.len() && m0[k] == j;
                    assert(matching@[k0] == j);
                }
            }
        }
        i = i + 1;
    }
    if matching.len() == 0 {
        proof {
            assert forall|j: int|
                0 <= j < states@.len() implies !cd_matches(
                (#[trigger] states@[j])@.worktree_path,
                name@,
            ) by {
                if cd_matches(states@[j]@.worktree_path, name@) {
                    assert(exists|k: int| 0 <= k < matching@.len() && matching@[k] == j);
                    assert(false);
                }
            }
        }
        proof {
            assert(no_other_match(states@, name@, None));
        }
        return CdResolution::NoMatch;
    } else if matching.len() == 1 {
        let index = matching[0];
        proof {
            assert forall|j: int|
                0 <= j < states@.len() && j != index implies !cd_matches(
                (#[trigger] states@[j])@.worktree_path,
                name@,
            ) by {
                if cd_matches(states@[j]@.worktree_path, name@) {
                    let k = choose|k: int| 0 <= k < matching@.len() && matching@[k] == j;
                    assert(matching@[k] == matching@[0]);
                }
            }
        }
        proof {
            assert(no_other_match(states@, name@, Some(index as int)));
        }
        return CdResolution::Unique { index };
    } else {
        proof {
            assert(ambiguous_ok(states@, name@, matching@));
        }
        return CdResolution::Ambiguous { indices: matching };
    }
}

/// The option line shown for one record when selecting interactively.
pub open spec fn spec_option_line(st: crate::state::StateV) -> Seq<char> {
    spec_display_name_cd(st.worktree_path) + " ("@ + st.branch + ")"@
}

/// Builds the selectable option lines, one per record.
pub fn selection_options(states: &Vec<WorktreeState>) -> (r: Vec<String>)
    ensures
        r@.len() == states@.len(),
        forall|i: int| 0 <= i < r@.len() ==> (#[trigger] r@[i])@ == spec_option_line(states@[i]@),
{
    let mut out: Vec<String> = Vec::new();
    let mut i: usize = 0;
    while i < states.len()
        invariant
            i <= states@.len(),
            out@.len() == i,
            forall|k: int|
                0 <= k < i ==> (#[trigger] out@[k])@ == spec_option_line(states@[k]@),
        decreases states@.len() - i,
    {
        let name = get_display_name(states[i].worktree_path.as_str());
        let line = name.concat(" (").concat(states[i].branch.as_str()).concat(")");
        proof {
            assert(line@ =~= spec_option_line(states@[i as int]@));
        }
        out.push(line);
        i = i + 1;
    }
    out
}

/// The positions whose flag is set, in increasing order: the records that
/// still exist on disk.
pub fn existing_indices(exists_on_disk: &Vec<bool>) -> (r: Vec<usize>)
    ensures
        forall|k: int, l: int| 0 <= k < l < r@.len() ==> r@[k] < r@[l],
        forall|k: int|
            0 <= k < r@.len() ==> (#[trigger] r@[k]) < exists_on_disk@.len()
                && exists_on_disk@[r@[k] as int],
        forall|i: int|
            0 <= i < exists_on_disk@.len() && exists_on_disk@[i] ==> exists|k: int|
                0 <= k < r@.len() && r@[k] == i,
{
    let mut out: Vec<usize> = Vec::new();
    let mut i: usize = 0;
    while i < exists_on_disk.len()
        invariant
            i <= exists_on_disk@.len(),
            forall|k: int, l: int| 0 <= k < l < out@.len() ==> out@[k] < out@[l],
            forall|k: int|
                0 <= k < out@.len() ==> (#[trigger] out@[k]) < i && exists_on_disk@[out@[k] as int],
            forall|j: int|
                0 <= j < i && exists_on_disk@[j] ==> exists|k: int|
                    0 <= k < out@.len() && out@[k] == j,
        decreases exists_on_disk@.len() - i,
    {
        let ghost o0 = out@;
        if exists_on_disk[i] {
            out.push(i);
        }
        proof {
            assert forall|j: int|
                0 <= j < i + 1 && exists_on_disk@[j] implies exists|k: int|
                0 <= k < out@.len() && out@[k] == j by {
                if j == i {
                    assert(out@[out@.len() - 1] == i);
                } else {
                    let k0 = choose|k: int| 0 <= k < o0.len() && o0[k] == j;
                    assert(out@[k0] == j);
                }
            }
        }
        i = i + 1;
    }
    out
}

} // verus!
