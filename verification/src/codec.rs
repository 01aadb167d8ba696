//! The on-disk encoding of a state record: a JSON object with the four
//! fields `worktree_path`, `origin_repo`, `branch` and `created_at` (the
//! last one as ISO-8601 text).
//!
//! The emitter and the reader are both verified; the central law is that
//! reading back what was written restores every field exactly.

use vstd::prelude::*;
use vstd::string::{StrSliceExecFns, StringExecFns};
use crate::state::{state_wf, StateV, WorktreeState};
use crate::strutil::push_char;
use crate::timefmt::{format_timestamp, parse_timestamp, rfc3339_of};

verus! {

/// The encoding of one character inside a JSON string literal.
pub open spec fn esc_char(c: char) -> Seq<char> {
    if c == '"' { seq!['\\', '"'] }
    else if c == '\\' { seq!['\\', '\\'] }
    else if c == '\n' { seq!['\\', 'n'] }
    else if c == '\r' { seq!['\\', 'r'] }
    else if c == '\t' { seq!['\\', 't'] }
    else { seq![c] }
}

/// The encoding of a whole string value.
pub open spec fn escape(v: Seq<char>) -> Seq<char>
    decreases v.len(),
{
    if v.len() == 0 {
        Seq::empty()
    } else {
        esc_char(v[0]) + escape(v.skip(1))
    }
}

/// Appending one character extends the encoding by that character's
/// encoding.
pub proof fn lemma_escape_push(a: Seq<char>, c: char)
    ensures
        escape(a.push(c)) == escape(a) + esc_char(c),
    decreases a.len(),
{
    if a.len() == 0 {
        assert(a.push(c)[0] == c);
        assert(a.push(c).skip(1) =~= Seq::<char>::empty());
        assert(escape(Seq::<char>::empty()) =~= Seq::<char>::empty());
        assert(escape(a.push(c)) == esc_char(c) + escape(a.push(c).skip(1)));
        assert(escape(a.push(c)) =~= escape(a) + esc_char(c));
    } else {
        assert(a.push(c)[0] == a[0]);
        assert(a.push(c).skip(1) =~= a.skip(1).push(c));
        lemma_escape_push(a.skip(1), c);
        assert(escape(a.push(c)) =~= escape(a) + esc_char(c));
    }
}

/// Encodes a string for inclusion in a JSON string literal.
pub fn escape_str(v: &str) -> (r: String)
    ensures
        r@ == escape(v@),
{
    let n = v.unicode_len();
    let mut out = String::new();
    let mut i: usize = 0;
    assert(out@ =~= escape(v@.take(0)));
    while i < n
        invariant
            n == v@.len(),
            i <= n,
            out@ == escape(v@.take(i as int)),
        decreases n - i,
    {
        let c = v.get_char(i);
        if c == '"' {
            push_char(&mut out, '\\');
            push_char(&mut out, '"');
        } else if c == '\\' {
            push_char(&mut out, '\\');
            push_char(&mut out, '\\');
        } else if c == '\n' {
            push_char(&mut out, '\\');
            push_char(&mut out, 'n');
        } else if c == '\r' {
            push_char(&mut out, '\\');
            push_char(&mut out, 'r');
        } else if c == '\t' {
            push_char(&mut out, '\\');
            push_char(&mut out, 't');
        } else {
            push_char(&mut out, c);
        }
        proof {
            lemma_escape_push(v@.take(i as int), c);
            assert(v@.take(i as int).push(c) =~= v@.take(i + 1));
            assert(out@ =~= escape(v@.take(i as int)) + esc_char(c));
        }
        i = i + 1;
    }
    proof {
        assert(v@.take(v@.len() as int) =~= v@);
    }
    out
}

/// The canonical serialized form of a record.
pub open spec fn json_of(st: StateV) -> Seq<char> {
    "{\"worktree_path\":\""@ + escape(st.worktree_path) + "\",\"origin_repo\":\""@ + escape(
        st.origin_repo,
    ) + "\",\"branch\":\""@ + escape(st.branch) + "\",\"created_at\":\""@ + escape(
        rfc3339_of(st.created_at),
    ) + "\"}"@
}

/// Serializes a record into its canonical JSON form.
pub fn state_to_json(st: &WorktreeState) -> (r: String)
    requires
        state_wf(st@),
    ensures
        r@ == json_of(st@),
{
    let ts = format_timestamp(st.created_at);
    let r = String::from_str("{\"worktree_path\":\"").concat(
        escape_str(st.worktree_path.as_str()).as_str(),
    ).concat("\",\"origin_repo\":\"").concat(escape_str(st.origin_repo.as_str()).as_str()).concat(
        "\",\"branch\":\"",
    ).concat(escape_str(st.branch.as_str()).as_str()).concat("\",\"created_at\":\"").concat(
        escape_str(ts.as_str()).as_str(),
    ).concat("\"}");
    proof {
        assert(r@ =~= json_of(st@));
    }
    r
}

/// Whether a character is JSON whitespace.
pub open spec fn is_json_ws(c: char) -> bool {
    c == ' ' || c == '\n' || c == '\r' || c == '\t'
}

/// The first position at or after `i` holding no whitespace.
pub open spec fn sp_ws(s: Seq<char>, i: int) -> int
    decreases s.len() - i,
{
    if 0 <= i < s.len() && is_json_ws(s[i]) {
        sp_ws(s, i + 1)
    } else {
        i
    }
}

/// Skipping whitespace stays inside the bounds it started in.
pub proof fn lemma_sp_ws_bounds(s: Seq<char>, i: int)
    requires
        0 <= i <= s.len(),
    ensures
        i <= sp_ws(s, i) <= s.len(),
    decreases s.len() - i,
{
    if i < s.len() && is_json_ws(s[i]) {
        lemma_sp_ws_bounds(s, i + 1);
    }
}

/// Reading one expected character.
pub open spec fn sp_char(s: Seq<char>, i: int, c: char) -> Option<int> {
    if 0 <= i < s.len() && s[i] == c {
        Some(i + 1)
    } else {
        None
    }
}

/// Reading the remainder of a JSON string literal, after the opening
/// quote: the decoded content and the position after the closing quote.
pub open spec fn sp_string_body(s: Seq<char>, i: int, acc: Seq<char>) -> Option<(Seq<char>, int)>
    decreases s.len() - i,
{
    if i < 0 || i >= s.len() {
        None
    } else if s[i] == '"' {
        Some((acc, i + 1))
    } else if s[i] == '\\' {
        if i + 1 < s.len() {
            if s[i + 1] == '"' { sp_string_body(s, i + 2, acc.push('"')) }
            else if s[i + 1] == '\\' { sp_string_body(s, i + 2, acc.push('\\')) }
            else if s[i + 1] == 'n' { sp_string_body(s, i + 2, acc.push('\n')) }
            else if s[i + 1] == 'r' { sp_string_body(s, i + 2, acc.push('\r')) }
            else if s[i + 1] == 't' { sp_string_body(s, i + 2, acc.push('\t')) }
            else { None }
        } else {
            None
        }
    } else {
        sp_string_body(s, i + 1, acc.push(s[i]))
    }
}

/// Reading a whole JSON string literal starting at its opening quote.
pub open spec fn sp_string(s: Seq<char>, i: int) -> Option<(Seq<char>, int)> {
    if 0 <= i < s.len() && s[i] == '"' {
        sp_string_body(s, i + 1, Seq::empty())
    } else {
        None
    }
}

/// Reading one `"key": "value"` member whose key must equal `key`.
pub open spec fn sp_member(s: Seq<char>, i: int, key: Seq<char>) -> Option<(Seq<char>, int)> {
    match sp_string(s, sp_ws(s, i)) {
        Some(kj) => if kj.0 == key {
            match sp_char(s, sp_ws(s, kj.1), ':') {
                Some(i3) => sp_string(s, sp_ws(s, i3)),
                None => None,
            }
        } else {
            None
        },
        None => None,
    }
}

/// The four fields of a record as read from its serialized form, before
/// the timestamp text is interpreted.
pub struct RawStateV {
    pub worktree_path: Seq<char>,
    pub origin_repo: Seq<char>,
    pub branch: Seq<char>,
    pub created_at_text: Seq<char>,
}

/// The reader of the serialized form: an object with the four members in
/// canonical order, whitespace allowed between tokens, nothing after the
/// closing brace.
pub open spec fn spec_parse_raw(s: Seq<char>) -> Option<RawStateV> {
    match sp_char(s, sp_ws(s, 0), '{') {
        Some(i1) => match sp_member(s, i1, "worktree_path"@) {
            Some(m1) => match sp_char(s, sp_ws(s, m1.1), ',') {
                Some(i2) => match sp_member(s, i2, "origin_repo"@) {
                    Some(m2) => match sp_char(s, sp_ws(s, m2.1), ',') {
                        Some(i3) => match sp_member(s, i3, "branch"@) {
                            Some(m3) => match sp_char(s, sp_ws(s, m3.1), ',') {
                                Some(i4) => match sp_member(s, i4, "created_at"@) {
                                    Some(m4) => match sp_char(s, sp_ws(s, m4.1), '}') {
                                        Some(j5) => if sp_ws(s, j5) == s.len() {
                                            Some(RawStateV {
                                                worktree_path: m1.0,
                                                origin_repo: m2.0,
                                                branch: m3.0,
                                                created_at_text: m4.0,
                                            })
                                        } else {
                                            None
                                        },
                                        None => None,
                                    },
                                    None => None,
                                },
                                None => None,
                            },
                            None => None,
                        },
                        None => None,
                    },
                    None => None,
                },
                None => None,
            },
            None => None,
        },
        None => None,
    }
}

/// Reading a quoted segment that contains no quote and no backslash (a
/// member key) yields exactly that segment.
proof fn lemma_sp_string_plain(s: Seq<char>, i: int, k: Seq<char>, acc: Seq<char>)
    requires
        0 <= i,
        i + k.len() + 1 <= s.len(),
        s.subrange(i, i + k.len() + 1) == k + seq!['"'],
        forall|j: int| 0 <= j < k.len() ==> k[j] != '"' && k[j] != '\\',
    ensures
        sp_string_body(s, i, acc) == Some((acc + k, i + k.len() + 1)),
    decreases k.len(),
{
    let kq = k + seq!['"'];
    assert(s.subrange(i, i + k.len() + 1)[0] == s[i]);
    assert(s[i] == kq[0]);
    if k.len() == 0 {
        assert(s[i] == '"');
        assert(acc + k =~= acc);
    } else {
        assert(s[i] == k[0]);
        assert(s[i] != '"' && s[i] != '\\');
        assert(sp_string_body(s, i, acc) == sp_string_body(s, i + 1, acc.push(k[0])));
        let k1 = k.skip(1);
        assert forall|j: int|
            0 <= j < k1.len() + 1 implies s.subrange(i + 1, i + 1 + k1.len() + 1)[j] == (k1
            + seq!['"'])[j] by {
            assert(s.subrange(i, i + k.len() + 1)[j + 1] == s[i + 1 + j]);
            assert(s.subrange(i + 1, i + 1 + k1.len() + 1)[j] == s[i + 1 + j]);
            assert(kq[j + 1] == (k1 + seq!['"'])[j]);
        }
        assert(s.subrange(i + 1, i + 1 + k1.len() + 1) =~= k1 + seq!['"']);
        lemma_sp_string_plain(s, i + 1, k1, acc.push(k[0]));
        assert(acc.push(k[0]) + k1 =~= acc + k);
    }
}

/// Reading the encoding of a value followed by a closing quote yields the
/// value.
proof fn lemma_sp_string_escaped(s: Seq<char>, i: int, v: Seq<char>, acc: Seq<char>)
    requires
        0 <= i,
        i + escape(v).len() + 1 <= s.len(),
        s.subrange(i, i + escape(v).len() + 1) == escape(v) + seq!['"'],
    ensures
        sp_string_body(s, i, acc) == Some((acc + v, i + escape(v).len() + 1)),
    decreases v.len(),
{
    let e = escape(v);
    let eq = e + seq!['"'];
    assert(s.subrange(i, i + e.len() + 1)[0] == s[i]);
    assert(s[i] == eq[0]);
    if v.len() == 0 {
        assert(e.len() == 0);
        assert(s[i] == '"');
        assert(acc + v =~= acc);
    } else {
        let c = v[0];
        assert(e == esc_char(c) + escape(v.skip(1)));
        let el = esc_char(c).len() as int;
        let e1 = escape(v.skip(1));
        assert forall|j: int|
            0 <= j < e1.len() + 1 implies s.subrange(i + el, i + el + e1.len() + 1)[j] == (e1
            + seq!['"'])[j] by {
            assert(s.subrange(i, i + e.len() + 1)[el + j] == s[i + el + j]);
            assert(s.subrange(i + el, i + el + e1.len() + 1)[j] == s[i + el + j]);
            assert(eq[el + j] == (e1 + seq!['"'])[j]);
        }
        assert(s.subrange(i + el, i + el + e1.len() + 1) =~= e1 + seq!['"']);
        if el == 2 {
            assert(s.subrange(i, i + e.len() + 1)[1] == s[i + 1]);
            assert(s[i + 1] == eq[1]);
            assert(eq[0] == esc_char(c)[0] && eq[1] == esc_char(c)[1]);
        }
        if c == '"' || c == '\\' || c == '\n' || c == '\r' || c == '\t' {
            assert(esc_char(c).len() == 2);
            assert(s[i] == e[0] && s[i + 1] == e[1]);
            assert(s[i] == '\\');
            lemma_sp_string_escaped(s, i + 2, v.skip(1), acc.push(c));
            if c == '"' {
                assert(s[i + 1] == '"');
                assert(sp_string_body(s, i, acc) == sp_string_body(s, i + 2, acc.push('"')));
            } else if c == '\\' {
                assert(s[i + 1] == '\\');
                assert(sp_string_body(s, i, acc) == sp_string_body(s, i + 2, acc.push('\\')));
            } else if c == '\n' {
                assert(s[i + 1] == 'n');
                assert(sp_string_body(s, i, acc) == sp_string_body(s, i + 2, acc.push('\n')));
            } else if c == '\r' {
                assert(s[i + 1] == 'r');
                assert(sp_string_body(s, i, acc) == sp_string_body(s, i + 2, acc.push('\r')));
            } else {
                assert(s[i + 1] == 't');
                assert(sp_string_body(s, i, acc) == sp_string_body(s, i + 2, acc.push('\t')));
            }
            assert(acc.push(c) + v.skip(1) =~= acc + v);
        } else {
            assert(esc_char(c) =~= seq![c]);
            assert(s[i] == c);
            assert(s[i] != '"' && s[i] != '\\');
            assert(sp_string_body(s, i, acc) == sp_string_body(s, i + 1, acc.push(c)));
            lemma_sp_string_escaped(s, i + 1, v.skip(1), acc.push(c));
            assert(acc.push(c) + v.skip(1) =~= acc + v);
        }
    }
}

/// One serialized member: quoted key, colon, quoted encoded value.
pub open spec fn member_seg(key: Seq<char>, esc_v: Seq<char>) -> Seq<char> {
    seq!['"'] + key + "\":\""@ + esc_v + seq!['"']
}

/// Reading a member at the start of its serialized form yields its value
/// and stops right after it.
proof fn lemma_sp_member_exact(s: Seq<char>, i: int, key: Seq<char>, v: Seq<char>)
    requires
        0 <= i,
        i + key.len() + escape(v).len() + 5 <= s.len(),
        s.subrange(i, i + key.len() + escape(v).len() + 5) == member_seg(key, escape(v)),
        key.len() > 0,
        forall|j: int| 0 <= j < key.len() ==> key[j] != '"' && key[j] != '\\',
    ensures
        sp_member(s, i, key) == Some((v, i + key.len() + escape(v).len() + 5)),
{
    let kl = key.len() as int;
    let el = escape(v).len() as int;
    let seg = member_seg(key, escape(v));
    reveal_strlit("\":\"");
    assert(seg.len() == kl + el + 5);
    assert("\":\""@.len() == 3 && "\":\""@[0] == '"' && "\":\""@[1] == ':' && "\":\""@[2] == '"');
    assert(s.subrange(i, i + kl + el + 5)[0] == s[i]);
    assert(s[i] == seg[0]);
    assert(seg[0] == '"');
    assert(!is_json_ws('"'));
    assert(sp_ws(s, i) == i);
    assert forall|j: int|
        0 <= j < kl + 1 implies s.subrange(i + 1, i + 1 + kl + 1)[j] == (key + seq!['"'])[j] by {
        assert(s.subrange(i, i + kl + el + 5)[1 + j] == s[i + 1 + j]);
        assert(s.subrange(i + 1, i + 1 + kl + 1)[j] == s[i + 1 + j]);
        assert(seg[1 + j] == (key + seq!['"'])[j]);
    }
    assert(s.subrange(i + 1, i + 1 + kl + 1) =~= key + seq!['"']);
    lemma_sp_string_plain(s, i + 1, key, Seq::empty());
    assert(sp_string(s, i) == Some((Seq::<char>::empty() + key, i + kl + 2)));
    assert(Seq::<char>::empty() + key =~= key);
    assert(s.subrange(i, i + kl + el + 5)[kl + 2] == s[i + kl + 2]);
    assert(s[i + kl + 2] == seg[kl + 2]);
    assert(seg[kl + 2] == ':');
    assert(!is_json_ws(':'));
    assert(sp_ws(s, i + kl + 2) == i + kl + 2);
    assert(sp_char(s, i + kl + 2, ':') == Some(i + kl + 3));
    assert(s.subrange(i, i + kl + el + 5)[kl + 3] == s[i + kl + 3]);
    assert(s[i + kl + 3] == seg[kl + 3]);
    assert(seg[kl + 3] == '"');
    assert(sp_ws(s, i + kl + 3) == i + kl + 3);
    assert forall|j: int|
        0 <= j < el + 1 implies s.subrange(i + kl + 4, i + kl + 4 + el + 1)[j] == (escape(v)
        + seq!['"'])[j] by {
        assert(s.subrange(i, i + kl + el + 5)[kl + 4 + j] == s[i + kl + 4 + j]);
        assert(s.subrange(i + kl + 4, i + kl + 4 + el + 1)[j] == s[i + kl + 4 + j]);
        assert(seg[kl + 4 + j] == (escape(v) + seq!['"'])[j]);
    }
    assert(s.subrange(i + kl + 4, i + kl + 4 + el + 1) =~= escape(v) + seq!['"']);
    lemma_sp_string_escaped(s, i + kl + 4, v, Seq::empty());
    assert(sp_string(s, i + kl + 3) == Some((Seq::<char>::empty() + v, i + kl + el + 5)));
    assert(Seq::<char>::empty() + v =~= v);
}

/// The serialized form, split into brace, members and commas.
pub open spec fn json_parts(st: StateV) -> Seq<char> {
    seq!['{'] + member_seg("worktree_path"@, escape(st.worktree_path)) + seq![','] + member_seg(
        "origin_repo"@,
        escape(st.origin_repo),
    ) + seq![','] + member_seg("branch"@, escape(st.branch)) + seq![','] + member_seg(
        "created_at"@,
        escape(rfc3339_of(st.created_at)),
    ) + seq!['}']
}

/// The two ways of writing the serialized form agree.
proof fn lemma_json_decomposition(st: StateV)
    ensures
        json_of(st) == json_parts(st),
{
    reveal_strlit("{\"worktree_path\":\"");
    reveal_strlit("\",\"origin_repo\":\"");
    reveal_strlit("\",\"branch\":\"");
    reveal_strlit("\",\"created_at\":\"");
    reveal_strlit("\"}");
    reveal_strlit("worktree_path");
    reveal_strlit("origin_repo");
    reveal_strlit("branch");
    reveal_strlit("created_at");
    reveal_strlit("\":\"");
    assert(json_of(st) =~= json_parts(st));
}

/// The value read back from the canonical serialized form of a record:
/// exactly its fields, with the timestamp still in its textual form.
pub proof fn lemma_parse_canonical(st: StateV)
    ensures
        spec_parse_raw(json_of(st)) == Some(
            RawStateV {
                worktree_path: st.worktree_path,
                origin_repo: st.origin_repo,
                branch: st.branch,
                created_at_text: rfc3339_of(st.created_at),
            },
        ),
{
    reveal_strlit("worktree_path");
    reveal_strlit("origin_repo");
    reveal_strlit("branch");
    reveal_strlit("created_at");
    reveal_strlit("\":\"");
    lemma_json_decomposition(st);
    let s = json_of(st);
    let k1 = "worktree_path"@;
    let k2 = "origin_repo"@;
    let k3 = "branch"@;
    let k4 = "created_at"@;
    let e1 = escape(st.worktree_path);
    let e2 = escape(st.origin_repo);
    let e3 = escape(st.branch);
    let e4 = escape(rfc3339_of(st.created_at));
    let m1 = member_seg(k1, e1);
    let m2 = member_seg(k2, e2);
    let m3 = member_seg(k3, e3);
    let m4 = member_seg(k4, e4);
    assert(k1.len() == 13 && k2.len() == 11 && k3.len() == 6 && k4.len() == 10);
    assert(m1.len() == 18 + e1.len() && m2.len() == 16 + e2.len() && m3.len() == 11 + e3.len()
        && m4.len() == 15 + e4.len());
    let p1: int = 1;
    let q1: int = p1 + k1.len() + e1.len() + 5;
    let p2: int = q1 + 1;
    let q2: int = p2 + k2.len() + e2.len() + 5;
    let p3: int = q2 + 1;
    let q3: int = p3 + k3.len() + e3.len() + 5;
    let p4: int = q3 + 1;
    let q4: int = p4 + k4.len() + e4.len() + 5;
    assert(s.len() == q4 + 1);
    assert(s[0] == '{');
    assert(!is_json_ws('{'));
    assert(sp_ws(s, 0) == 0);
    assert(sp_char(s, 0, '{') == Some(p1 as int));
    assert forall|j: int| 0 <= j < k1.len() implies k1[j] != '"' && k1[j] != '\\' by {}
    assert forall|j: int| 0 <= j < k2.len() implies k2[j] != '"' && k2[j] != '\\' by {}
    assert forall|j: int| 0 <= j < k3.len() implies k3[j] != '"' && k3[j] != '\\' by {}
    assert forall|j: int| 0 <= j < k4.len() implies k4[j] != '"' && k4[j] != '\\' by {}
    assert(s.subrange(p1 as int, q1 as int) =~= m1);
    lemma_sp_member_exact(s, p1 as int, k1, st.worktree_path);
    assert(sp_member(s, p1 as int, k1) == Some((st.worktree_path, q1 as int)));
    assert(s[q1 as int] == ',');
    assert(!is_json_ws(','));
    assert(sp_ws(s, q1 as int) == q1);
    assert(sp_char(s, q1 as int, ',') == Some(p2 as int));
    assert(s.subrange(p2 as int, q2 as int) =~= m2);
    lemma_sp_member_exact(s, p2 as int, k2, st.origin_repo);
    assert(sp_member(s, p2 as int, k2) == Some((st.origin_repo, q2 as int)));
    assert(s[q2 as int] == ',');
    assert(sp_ws(s, q2 as int) == q2);
    assert(sp_char(s, q2 as int, ',') == Some(p3 as int));
    assert(s.subrange(p3 as int, q3 as int) =~= m3);
    lemma_sp_member_exact(s, p3 as int, k3, st.branch);
    assert(sp_member(s, p3 as int, k3) == Some((st.branch, q3 as int)));
    assert(s[q3 as int] == ',');
    assert(sp_ws(s, q3 as int) == q3);
    assert(sp_char(s, q3 as int, ',') == Some(p4 as int));
    assert(s.subrange(p4 as int, q4 as int) =~= m4);
    lemma_sp_member_exact(s, p4 as int, k4, rfc3339_of(st.created_at));
    assert(sp_member(s, p4 as int, k4) == Some((rfc3339_of(st.created_at), q4 as int)));
    assert(s[q4 as int] == '}');
    assert(!is_json_ws('}'));
    assert(sp_ws(s, q4 as int) == q4);
    assert(sp_char(s, q4 as int, '}') == Some(q4 + 1));
    assert(sp_ws(s, q4 + 1) == s.len());
}

/// Law: serializing a record and reading the text back yields every field
/// unchanged, the timestamp still in its canonical textual form.
pub proof fn lemma_round_trip(st: StateV)
    ensures
        spec_parse_raw(json_of(st)) is Some,
        spec_parse_raw(json_of(st))->0.worktree_path == st.worktree_path,
        spec_parse_raw(json_of(st))->0.origin_repo == st.origin_repo,
        spec_parse_raw(json_of(st))->0.branch == st.branch,
        spec_parse_raw(json_of(st))->0.created_at_text == rfc3339_of(st.created_at),
{
    lemma_parse_canonical(st);
}

/// Advances past whitespace.
fn skip_ws(s: &str, n: usize, i: usize) -> (r: usize)
    requires
        n == s@.len(),
        i <= n,
    ensures
        r == sp_ws(s@, i as int),
        i <= r <= n,
{
    let mut p = i;
    loop
        invariant
            n == s@.len(),
            i <= p <= n,
            sp_ws(s@, i as int) == sp_ws(s@, p as int),
        decreases n - p,
    {
        if p < n {
            let c = s.get_char(p);
            if c == ' ' || c == '\n' || c == '\r' || c == '\t' {
                assert(sp_ws(s@, p as int) == sp_ws(s@, p + 1));
                p = p + 1;
                continue;
            }
        }
        assert(sp_ws(s@, p as int) == p);
        return p;
    }
}

/// Reads one expected character.
fn expect_char(s: &str, n: usize, i: usize, c: char) -> (r: Option<usize>)
    requires
        n == s@.len(),
    ensures
        match r {
            Some(j) => sp_char(s@, i as int, c) == Some(j as int) && j <= n,
            None => sp_char(s@, i as int, c) is None,
        },
{
    if i < n && s.get_char(i) == c {
        Some(i + 1)
    } else {
        None
    }
}

/// Reads one JSON string literal starting at its opening quote.
fn parse_string_at(s: &str, n: usize, i: usize) -> (r: Option<(String, usize)>)
    requires
        n == s@.len(),
    ensures
        match r {
            Some(p) => sp_string(s@, i as int) == Some((p.0@, p.1 as int)) && p.1 <= n,
            None => sp_string(s@, i as int) is None,
        },
{
    if i >= n || s.get_char(i) != '"' {
        return None;
    }
    let mut acc = String::new();
    let mut p = i + 1;
    loop
        invariant
            n == s@.len(),
            i + 1 <= p <= n,
            sp_string(s@, i as int) == sp_string_body(s@, p as int, acc@),
        decreases n - p,
    {
        if p >= n {
            return None;
        }
        let c = s.get_char(p);
        if c == '"' {
            return Some((acc, p + 1));
        }
        if c == '\\' {
            if p + 1 >= n {
                return None;
            }
            let e = s.get_char(p + 1);
            if e == '"' {
                proof {
                    assert(sp_string_body(s@, p as int, acc@) == sp_string_body(
                        s@,
                        p + 2,
                        acc@.push('"'),
                    ));
                }
                push_char(&mut acc, '"');
            } else if e == '\\' {
                proof {
                    assert(sp_string_body(s@, p as int, acc@) == sp_string_body(
                        s@,
                        p + 2,
                        acc@.push('\\'),
                    ));
                }
                push_char(&mut acc, '\\');
            } else if e == 'n' {
                proof {
                    assert(sp_string_body(s@, p as int, acc@) == sp_string_body(
                        s@,
                        p + 2,
                        acc@.push('\n'),
                    ));
                }
                push_char(&mut acc, '\n');
            } else if e == 'r' {
                proof {
                    assert(sp_string_body(s@, p as int, acc@) == sp_string_body(
                        s@,
                        p + 2,
                        acc@.push('\r'),
                    ));
                }
                push_char(&mut acc, '\r');
            } else if e == 't' {
                proof {
                    assert(sp_string_body(s@, p as int, acc@) == sp_string_body(
                        s@,
                        p + 2,
                        acc@.push('\t'),
                    ));
                }
                push_char(&mut acc, '\t');
            } else {
                return None;
            }
            p = p + 2;
        } else {
            proof {
                assert(sp_string_body(s@, p as int, acc@) == sp_string_body(
                    s@,
                    p + 1,
                    acc@.push(s@[p as int]),
                ));
            }
            push_char(&mut acc, c);
            p = p + 1;
        }
    }
}

/// Reads one `"key": "value"` member whose key must equal `key`.
fn parse_member_at(s: &str, n: usize, i: usize, key: &str) -> (r: Option<(String, usize)>)
    requires
        n == s@.len(),
        i <= n,
    ensures
        match r {
            Some(p) => sp_member(s@, i as int, key@) == Some((p.0@, p.1 as int)) && p.1 <= n,
            None => sp_member(s@, i as int, key@) is None,
        },
{
    let i1 = skip_ws(s, n, i);
    match parse_string_at(s, n, i1) {
        Some((k, j)) => {
            if !crate::strutil::str_eq(k.as_str(), key) {
                return None;
            }
            let i2 = skip_ws(s, n, j);
            match expect_char(s, n, i2, ':') {
                Some(i3) => {
                    let i4 = skip_ws(s, n, i3);
                    parse_string_at(s, n, i4)
                },
                None => None,
            }
        },
        None => None,
    }
}

/// Reads a serialized record back.  On the canonical form of any record
/// this restores every field exactly; anything the reader accepts is a
/// well-formed record whose three path/branch fields come from the text's
/// members.
pub fn parse_state_json(s: &str) -> (r: Option<WorktreeState>)
    ensures
        forall|st: StateV| state_wf(st) && s@ == json_of(st) ==> r is Some && r->0@ == st,
        r is Some ==> state_wf(r->0@),
        r is Some ==> spec_parse_raw(s@) is Some && r->0@.worktree_path == spec_parse_raw(
            s@,
        )->0.worktree_path && r->0@.origin_repo == spec_parse_raw(s@)->0.origin_repo
            && r->0@.branch == spec_parse_raw(s@)->0.branch,
{
    let n = s.unicode_len();
    let i0 = skip_ws(s, n, 0);
    let outcome: Option<WorktreeState> = match expect_char(s, n, i0, '{') {
        Some(i1) => match parse_member_at(s, n, i1, "worktree_path") {
            Some((wp, j1)) => match expect_char(s, n, skip_ws(s, n, j1), ',') {
                Some(i2) => match parse_member_at(s, n, i2, "origin_repo") {
                    Some((orv, j2)) => match expect_char(s, n, skip_ws(s, n, j2), ',') {
                        Some(i3) => match parse_member_at(s, n, i3, "branch") {
                            Some((br, j3)) => match expect_char(s, n, skip_ws(s, n, j3), ',') {
                                Some(i4) => match parse_member_at(s, n, i4, "created_at") {
                                    Some((ca, j4)) => match expect_char(
                                        s,
                                        n,
                                        skip_ws(s, n, j4),
                                        '}',
                                    ) {
                                        Some(j5) => {
                                            if skip_ws(s, n, j5) == n {
                                                match parse_timestamp(ca.as_str()) {
                                                    Some(t) => {
                                                        if 0 <= t && t < crate::timefmt::TS_UPPER {
                                                            Some(
                                                                WorktreeState {
                                                                    worktree_path: wp,
                                                                    origin_repo: orv,
                                                                    branch: br,
                                                                    created_at: t,
                                                                },
                                                            )
                                                        } else {
                                                            None
                                                        }
                                                    },
                                                    None => None,
                                                }
                                            } else {
                                                None
                                            }
                                        },
                                        None => None,
                                    },
                                    None => None,
                                },
                                None => None,
                            },
                            None => None,
                        },
                        None => None,
                    },
                    None => None,
                },
                None => None,
            },
            None => None,
        },
        None => None,
    };
    proof {
        assert forall|st: StateV|
            state_wf(st) && s@ == json_of(st) implies outcome is Some && outcome->0@ == st by {
            lemma_parse_canonical(st);
        }
    }
    outcome
}

} // verus!
