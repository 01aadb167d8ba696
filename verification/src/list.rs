//! The list operation: display names, human-readable relative ages, and
//! the rendered table of managed worktrees.

use vstd::prelude::*;
use vstd::string::{StrSliceExecFns, StringExecFns};
use crate::state::WorktreeState;
use crate::strutil::{find_last_slash_before, last_slash_before, push_char, spec_dec, u64_to_dec};
use crate::timefmt::ts_wf;

verus! {

/// The display name of a worktree path: the text after the second-to-last
/// separator, or the whole path when it holds fewer than two separators.
pub open spec fn spec_display_name(p: Seq<char>) -> Seq<char> {
    let j2 = last_slash_before(p, p.len() as int);
    if j2 < 0 {
        p
    } else {
        let j1 = last_slash_before(p, j2);
        if j1 < 0 {
            p
        } else {
            p.skip(j1 + 1)
        }
    }
}

/// The display name of a worktree path (its last two segments).
pub fn get_display_name(path: &str) -> (r: String)
    ensures
        r@ == spec_display_name(path@),
{
    let n = path.unicode_len();
    match find_last_slash_before(path, n, n) {
        Some(j2) => match find_last_slash_before(path, n, j2) {
            Some(j1) => {
                let r = path.substring_char(j1 + 1, n);
                proof {
                    assert(path@.subrange(j1 + 1, n as int) =~= path@.skip(j1 + 1));
                }
                String::from_str(r)
            },
            None => path.to_owned(),
        },
        None => path.to_owned(),
    }
}

/// The human wording of the age of a record at a given moment.
pub open spec fn spec_relative_time(now: i64, created: i64) -> Seq<char> {
    let d = now - created;
    if d >= 86400 {
        if d / 86400 == 1 {
            "1 day ago"@
        } else {
            spec_dec((d / 86400) as nat) + " days ago"@
        }
    } else if d >= 3600 {
        if d / 3600 == 1 {
            "1 hour ago"@
        } else {
            spec_dec((d / 3600) as nat) + " hours ago"@
        }
    } else if d >= 60 {
        if d / 60 == 1 {
            "1 minute ago"@
        } else {
            spec_dec((d / 60) as nat) + " minutes ago"@
        }
    } else {
        "just now"@
    }
}

/// Renders the age of a record: full days, else full hours, else full
/// minutes, else "just now", with singular wording for one unit.
pub fn format_relative_time(now: i64, created: i64) -> (r: String)
    requires
        ts_wf(now),
        ts_wf(created),
    ensures
        r@ == spec_relative_time(now, created),
{
    if now < created {
        proof {
            reveal_strlit("just now");
        }
        return String::from_str("just now");
    }
    let d = now - created;
    if d >= 86400 {
        let units = d / 86400;
        if units == 1 {
            String::from_str("1 day ago")
        } else {
            u64_to_dec(units as u64).concat(" days ago")
        }
    } else if d >= 3600 {
        let units = d / 3600;
        if units == 1 {
            String::from_str("1 hour ago")
        } else {
            u64_to_dec(units as u64).concat(" hours ago")
        }
    } else if d >= 60 {
        let units = d / 60;
        if units == 1 {
            String::from_str("1 minute ago")
        } else {
            u64_to_dec(units as u64).concat(" minutes ago")
        }
    } else {
        String::from_str("just now")
    }
}

/// `n` spaces.
pub open spec fn spaces(n: nat) -> Seq<char>
    decreases n,
{
    if n == 0 {
        Seq::empty()
    } else {
        spaces((n - 1) as nat).push(' ')
    }
}

/// `s` padded with spaces on the right to at least `w` characters.
pub open spec fn spec_pad(s: Seq<char>, w: nat) -> Seq<char> {
    if s.len() >= w {
        s
    } else {
        s + spaces((w - s.len()) as nat)
    }
}

/// Pads a string with spaces on the right to at least `w` characters.
pub fn pad_to(s: &str, w: usize) -> (r: String)
    ensures
        r@ == spec_pad(s@, w as nat),
{
    let n = s.unicode_len();
    let mut out = String::from_str(s);
    if n >= w {
        proof {
            assert(out@ =~= spec_pad(s@, w as nat));
        }
        return out;
    }
    let mut i: usize = 0;
    let total = w - n;
    assert(out@ =~= s@ + spaces(0));
    while i < total
        invariant
            total == w - n,
            n == s@.len(),
            n < w,
            i <= total,
            out@ =~= s@ + spaces(i as nat),
        decreases total - i,
    {
        push_char(&mut out, ' ');
        proof {
            assert((s@ + spaces(i as nat)).push(' ') =~= s@ + spaces((i + 1) as nat));
        }
        i = i + 1;
    }
    out
}

/// The table line for one record.
pub open spec fn spec_list_line(st: crate::state::StateV, exists_on_disk: bool, now: i64) -> Seq<
    char,
> {
    spec_pad(spec_display_name(st.worktree_path), 30) + " "@ + spec_pad(st.branch, 40) + " "@
        + spec_relative_time(now, st.created_at) + (if exists_on_disk {
        Seq::<char>::empty()
    } else {
        " (not found)"@
    })
}

/// Renders the list report: one line per record, or a single notice when
/// there is nothing to list.
pub fn render_list(states: &Vec<WorktreeState>, exists_on_disk: &Vec<bool>, now: i64) -> (r: Vec<
    String,
>)
    requires
        exists_on_disk@.len() == states@.len(),
        ts_wf(now),
        forall|i: int| 0 <= i < states@.len() ==> ts_wf((#[trigger] states@[i])@.created_at),
    ensures
        states@.len() == 0 ==> r@.len() == 1 && r@[0]@ == "No managed worktrees found."@,
        states@.len() > 0 ==> r@.len() == states@.len() && forall|i: int|
            0 <= i < r@.len() ==> (#[trigger] r@[i])@ == spec_list_line(
                states@[i]@,
                exists_on_disk@[i],
                now,
            ),
{
    let mut out: Vec<String> = Vec::new();
    if states.len() == 0 {
        out.push(String::from_str("No managed worktrees found."));
        return out;
    }
    let mut i: usize = 0;
    while i < states.len()
        invariant
            exists_on_disk@.len() == states@.len(),
            ts_wf(now),
            forall|k: int| 0 <= k < states@.len() ==> ts_wf((#[trigger] states@[k])@.created_at),
            i <= states@.len(),
            out@.len() == i,
            forall|k: int|
                0 <= k < i ==> (#[trigger] out@[k])@ == spec_list_line(
                    states@[k]@,
                    exists_on_disk@[k],
                    now,
                ),
        decreases states@.len() - i,
    {
        let st = &states[i];
        let name = get_display_name(st.worktree_path.as_str());
        let age = format_relative_time(now, st.created_at);
        let mut line = pad_to(name.as_str(), 30).concat(" ").concat(
            pad_to(st.branch.as_str(), 40).as_str(),
        ).concat(" ").concat(age.as_str());
        if !exists_on_disk[i] {
            line = line.concat(" (not found)");
        }
        proof {
            assert(line@ =~= spec_list_line(states@[i as int]@, exists_on_disk@[i as int], now));
        }
        out.push(line);
        i = i + 1;
    }
    out
}

} // verus!
