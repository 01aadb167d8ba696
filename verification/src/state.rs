//! State records: one per managed worktree, keyed by a deterministic hash
//! of the worktree's path.
//!
//! This module defines the record type, the state-directory layout, and the
//! path-hash computation.  The serialized form of a record lives in
//! [`crate::codec`]; reading and writing the files is input/output and
//! stays outside the library.

use vstd::prelude::*;
use vstd::string::StringExecFns;
use sha2::{Digest, Sha256};
use crate::strutil::push_char;
use crate::timefmt::ts_wf;

verus! {

/// State information for one managed worktree.
pub struct WorktreeState {
    /// Absolute path to the worktree.
    pub worktree_path: String,
    /// Absolute path to the origin repository.
    pub origin_repo: String,
    /// Branch name checked out in the worktree.
    pub branch: String,
    /// When the worktree was created, as Unix seconds.
    pub created_at: i64,
}

/// The mathematical value of a [`WorktreeState`].
pub struct StateV {
    pub worktree_path: Seq<char>,
    pub origin_repo: Seq<char>,
    pub branch: Seq<char>,
    pub created_at: i64,
}

impl View for WorktreeState {
    type V = StateV;

    open spec fn view(&self) -> StateV {
        StateV {
            worktree_path: self.worktree_path@,
            origin_repo: self.origin_repo@,
            branch: self.branch@,
            created_at: self.created_at,
        }
    }
}

/// Well-formedness of a state record: its timestamp is one the library
/// handles.
pub open spec fn state_wf(s: StateV) -> bool {
    ts_wf(s.created_at)
}

impl WorktreeState {
    /// Creates a new state record from its four fields.
    pub fn new(worktree_path: String, origin_repo: String, branch: String, created_at: i64) -> (r:
        WorktreeState)
        requires
            ts_wf(created_at),
        ensures
            r@ == (StateV {
                worktree_path: worktree_path@,
                origin_repo: origin_repo@,
                branch: branch@,
                created_at: created_at,
            }),
            state_wf(r@),
    {
        WorktreeState { worktree_path, origin_repo, branch, created_at }
    }

    /// Duplicates a record; the copy has the same value.
    pub fn duplicate(&self) -> (r: WorktreeState)
        ensures
            r@ == self@,
    {
        WorktreeState {
            worktree_path: self.worktree_path.clone(),
            origin_repo: self.origin_repo.clone(),
            branch: self.branch.clone(),
            created_at: self.created_at,
        }
    }
}

/// The state directory under the given home directory.
pub fn state_dir(home: &str) -> (r: String)
    ensures
        r@ == home@ + "/.gj/state"@,
{
    String::from_str(home).concat("/.gj/state")
}

/// The 32-byte digest of a character sequence's UTF-8 bytes.
pub uninterp spec fn sha256_of(s: Seq<char>) -> Seq<u8>;

/// Relies on `sha2::Sha256` (through the `Digest` trait): the 32-byte
/// digest of the input bytes, a function of the input alone.
#[verifier::external_body]
fn sha256_str(s: &str) -> (r: Vec<u8>)
    ensures
        r@ == sha256_of(s@),
        r@.len() == 32,
{
    let digest = Sha256::digest(s.as_bytes());
    digest.as_slice().to_vec()
}

/// The lower-case hex digit for a value below sixteen.
pub open spec fn hex_digit(d: nat) -> char {
    if d == 0 { '0' }
    else if d == 1 { '1' }
    else if d == 2 { '2' }
    else if d == 3 { '3' }
    else if d == 4 { '4' }
    else if d == 5 { '5' }
    else if d == 6 { '6' }
    else if d == 7 { '7' }
    else if d == 8 { '8' }
    else if d == 9 { '9' }
    else if d == 10 { 'a' }
    else if d == 11 { 'b' }
    else if d == 12 { 'c' }
    else if d == 13 { 'd' }
    else if d == 14 { 'e' }
    else { 'f' }
}

/// Lower-case hex rendering of a byte sequence: two digits per byte.
pub open spec fn hex_of(bs: Seq<u8>) -> Seq<char> {
    Seq::new(
        bs.len() * 2,
        |i: int|
            if i % 2 == 0 {
                hex_digit((bs[i / 2] / 16) as nat)
            } else {
                hex_digit((bs[i / 2] % 16) as nat)
            },
    )
}

/// Renders bytes as lower-case hex, two digits per byte.
pub fn encode(bytes: &[u8]) -> (r: String)
    ensures
        r@ == hex_of(bytes@),
{
    let mut out = String::new();
    let mut i: usize = 0;
    assert(out@ =~= hex_of(bytes@.take(0)));
    while i < bytes.len()
        invariant
            i <= bytes@.len(),
            out@ =~= hex_of(bytes@.take(i as int)),
        decreases bytes@.len() - i,
    {
        let b = bytes[i];
        let hi = hex_digit_of(b / 16);
        let lo = hex_digit_of(b % 16);
        push_char(&mut out, hi);
        push_char(&mut out, lo);
        proof {
            assert(out@ =~= hex_of(bytes@.take(i + 1)));
        }
        i = i + 1;
    }
    proof {
        assert(bytes@.take(bytes@.len() as int) =~= bytes@);
    }
    out
}

/// Helper for `encode`: the hex digit character of a value below sixteen.
fn hex_digit_of(d: u8) -> (c: char)
    requires
        d < 16,
    ensures
        c == hex_digit(d as nat),
{
    if d == 0 { '0' }
    else if d == 1 { '1' }
    else if d == 2 { '2' }
    else if d == 3 { '3' }
    else if d == 4 { '4' }
    else if d == 5 { '5' }
    else if d == 6 { '6' }
    else if d == 7 { '7' }
    else if d == 8 { '8' }
    else if d == 9 { '9' }
    else if d == 10 { 'a' }
    else if d == 11 { 'b' }
    else if d == 12 { 'c' }
    else if d == 13 { 'd' }
    else if d == 14 { 'e' }
    else { 'f' }
}

/// The state-file identifier of a worktree path: the first eight digest
/// bytes, rendered as sixteen hex characters.
pub open spec fn spec_path_hash(p: Seq<char>) -> Seq<char> {
    hex_of(sha256_of(p).take(8))
}

/// Computes the state-file identifier of a worktree path.
pub fn path_hash(path: &str) -> (r: String)
    ensures
        r@ == spec_path_hash(path@),
        r@.len() == 16,
{
    let mut d = sha256_str(path);
    d.truncate(8);
    encode(d.as_slice())
}

/// Law: the path hash is deterministic — equal paths always give equal
/// identifiers.
pub proof fn lemma_path_hash_deterministic(p1: Seq<char>, p2: Seq<char>)
    ensures
        p1 == p2 ==> spec_path_hash(p1) == spec_path_hash(p2),
{
}

/// The full path of a worktree's state file under the given home
/// directory.
pub fn state_file_path(home: &str, worktree_path: &str) -> (r: String)
    ensures
        r@ == home@ + "/.gj/state/"@ + spec_path_hash(worktree_path@) + ".json"@,
{
    let h = path_hash(worktree_path);
    let r = state_dir(home).concat("/").concat(h.as_str()).concat(".json");
    proof {
        reveal_strlit("/.gj/state");
        reveal_strlit("/");
        reveal_strlit("/.gj/state/");
        assert(r@ =~= home@ + "/.gj/state/"@ + spec_path_hash(worktree_path@) + ".json"@);
    }
    r
}

/// Whether the reader accepts the content `c` and yields the three textual
/// fields of `st` (the timestamp text is interpreted separately).
pub open spec fn parses_to(c: Seq<char>, st: StateV) -> bool {
    &&& crate::codec::spec_parse_raw(c) is Some
    &&& crate::codec::spec_parse_raw(c)->0.worktree_path == st.worktree_path
    &&& crate::codec::spec_parse_raw(c)->0.origin_repo == st.origin_repo
    &&& crate::codec::spec_parse_raw(c)->0.branch == st.branch
    &&& state_wf(st)
}

/// Newest-first order on a sequence of records.
pub open spec fn sorted_newest_first(r: Seq<WorktreeState>) -> bool {
    forall|a: int, b: int| 0 <= a < b < r.len() ==> r[a]@.created_at >= r[b]@.created_at
}

/// The first position whose record is older than `t`, assuming
/// newest-first order before it.
fn insert_pos(r: &Vec<WorktreeState>, t: i64) -> (pos: usize)
    ensures
        pos <= r@.len(),
        forall|k: int| 0 <= k < pos ==> r@[k]@.created_at >= t,
        pos < r@.len() ==> r@[pos as int]@.created_at < t,
{
    let mut pos: usize = 0;
    while pos < r.len() && r[pos].created_at >= t
        invariant
            pos <= r@.len(),
            forall|k: int| 0 <= k < pos ==> r@[k]@.created_at >= t,
        decreases r@.len() - pos,
    {
        pos = pos + 1;
    }
    pos
}

/// Enumerates the records among a set of file contents: each content is
/// read independently, unreadable ones are skipped silently, and the
/// surviving records are returned newest first.
pub fn list_from_contents(contents: &Vec<String>) -> (r: Vec<WorktreeState>)
    ensures
        sorted_newest_first(r@),
        forall|j: int, st: StateV|
            0 <= j < contents@.len() && state_wf(st) && contents@[j]@ == crate::codec::json_of(st)
                ==> exists|k: int| 0 <= k < r@.len() && r@[k]@ == st,
        exists|src: Seq<int>|
            #![trigger src.len()]
            {
                &&& src.len() == r@.len()
                &&& forall|k: int| #![trigger src[k]] 0 <= k < src.len() ==> 0 <= src[k]
                    < contents@.len()
                &&& forall|k: int| #![trigger src[k]] 0 <= k < src.len() ==> parses_to(
                    contents@[src[k]]@,
                    r@[k]@,
                )
                &&& forall|k1: int, k2: int| #![trigger src[k1], src[k2]] 0 <= k1 < k2 < src.len()
                    ==> src[k1] != src[k2]
            },
{
    let mut out: Vec<WorktreeState> = Vec::new();
    let ghost mut src: Seq<int> = Seq::empty();
    let mut j: usize = 0;
    while j < contents.len()
        invariant
            j <= contents@.len(),
            sorted_newest_first(out@),
            src.len() == out@.len(),
            forall|k: int| #![trigger src[k]] 0 <= k < src.len() ==> 0 <= src[k] < j,
            forall|k: int| #![trigger src[k]]
                0 <= k < src.len() ==> parses_to(contents@[src[k]]@, out@[k]@),
            forall|k1: int, k2: int| #![trigger src[k1], src[k2]]
                0 <= k1 < k2 < src.len() ==> src[k1] != src[k2],
            forall|jj: int, st: StateV|
                0 <= jj < j && state_wf(st) && contents@[jj]@ == crate::codec::json_of(st)
                    ==> exists|k: int| 0 <= k < out@.len() && out@[k]@ == st,
        decreases contents@.len() - j,
    {
        let parsed = crate::codec::parse_state_json(contents[j].as_str());
        match parsed {
            Some(st) => {
                let pos = insert_pos(&out, st.created_at);
                let ghost old_out = out@;
                let ghost old_src = src;
                let ghost stv = st@;
                out.insert(pos, st);
                proof {
                    src = src.insert(pos as int, j as int);
                    old_src.insert_ensures(pos as int, j as int);
                    assert(exists|e: WorktreeState| out@ == old_out.insert(pos as int, e));
                    let elem = choose|e: WorktreeState| out@ == old_out.insert(pos as int, e);
                    old_out.insert_ensures(pos as int, elem);
                    assert(out@[pos as int] == elem);
                    assert(elem@ == stv);
                    assert forall|a: int, b: int|
                        0 <= a < b < out@.len() implies out@[a]@.created_at
                        >= out@[b]@.created_at by {
                        if a < pos && b > pos {
                            assert(out@[a] == old_out[a]);
                            assert(out@[b] == old_out[b - 1]);
                        }
                    }
                    assert forall|k: int| #![trigger src[k]]
                        0 <= k < src.len() implies 0 <= src[k] < j + 1 && parses_to(
                        contents@[src[k]]@,
                        out@[k]@,
                    ) by {
                        if k < pos {
                            assert(src[k] == old_src[k]);
                            assert(out@[k] == old_out[k]);
                        } else if k == pos {
                            assert(src[k] == j as int);
                            assert(out@[k]@ == stv);
                        } else {
                            assert(src[k] == old_src[k - 1]);
                            assert(out@[k] == old_out[k - 1]);
                        }
                    }
                    assert forall|k1: int, k2: int| #![trigger src[k1], src[k2]]
                        0 <= k1 < k2 < src.len() implies src[k1] != src[k2] by {
                        if k1 < pos {
                            assert(src[k1] == old_src[k1]);
                        } else if k1 == pos {
                            assert(src[k1] == j as int);
                        } else {
                            assert(src[k1] == old_src[k1 - 1]);
                        }
                        if k2 < pos {
                            assert(src[k2] == old_src[k2]);
                        } else if k2 == pos {
                            assert(src[k2] == j as int);
                        } else {
                            assert(src[k2] == old_src[k2 - 1]);
                        }
                    }
                    assert forall|jj: int, st2: StateV|
                        0 <= jj < j + 1 && state_wf(st2) && contents@[jj]@ == crate::codec::json_of(
                            st2,
                        ) implies exists|k: int| 0 <= k < out@.len() && out@[k]@ == st2 by {
                        if jj == j {
                            assert(out@[pos as int]@ == st2);
                        } else {
                            let k0 = choose|k: int| 0 <= k < old_out.len() && old_out[k]@ == st2;
                            if k0 < pos {
                                assert(out@[k0]@ == st2);
                            } else {
                                assert(out@[k0 + 1]@ == st2);
                            }
                        }
                    }
                }
            },
            None => {
                proof {
                    assert forall|jj: int, st2: StateV|
                        0 <= jj < j + 1 && state_wf(st2) && contents@[jj]@ == crate::codec::json_of(
                            st2,
                        ) implies exists|k: int| 0 <= k < out@.len() && out@[k]@ == st2 by {}
                }
            },
        }
        j = j + 1;
    }
    out
}

} // verus!
