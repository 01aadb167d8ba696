//! Name computations of the new-branch operation: sanitizing a
//! user-supplied suffix, generating a random two-word suffix, and
//! composing the branch name and worktree path.

use vstd::prelude::*;
use vstd::string::StringExecFns;
use crate::strutil::{char_alnum, is_alphanumeric_char, push_char};

verus! {

/// What the sanitizer does with one character: alphanumerics, hyphens and
/// underscores stay, everything else becomes a hyphen.
pub open spec fn sanitized_char(c: char) -> char {
    if char_alnum(c) || c == '-' || c == '_' {
        c
    } else {
        '-'
    }
}

/// The sanitized form of a suffix.
pub open spec fn spec_sanitize_name(s: Seq<char>) -> Seq<char> {
    Seq::new(s.len(), |i: int| sanitized_char(s[i]))
}

/// Whether a character may appear in a sanitized suffix.
pub open spec fn allowed_name_char(c: char) -> bool {
    char_alnum(c) || c == '-' || c == '_'
}

/// Sanitizes a branch-name suffix: every character outside alphanumerics,
/// `-` and `_` is replaced by `-`, so the result holds only such
/// characters.
pub fn sanitize_name(name: &str) -> (r: String)
    ensures
        r@ == spec_sanitize_name(name@),
        forall|i: int| 0 <= i < r@.len() ==> allowed_name_char(#[trigger] r@[i]),
{
    let n = name.unicode_len();
    let mut out = String::new();
    let mut i: usize = 0;
    assert(out@ =~= spec_sanitize_name(name@).take(0));
    while i < n
        invariant
            n == name@.len(),
            i <= n,
            out@ =~= spec_sanitize_name(name@).take(i as int),
        decreases n - i,
    {
        let c = name.get_char(i);
        if is_alphanumeric_char(c) || c == '-' || c == '_' {
            push_char(&mut out, c);
        } else {
            push_char(&mut out, '-');
        }
        proof {
            assert(out@ =~= spec_sanitize_name(name@).take(i + 1));
        }
        i = i + 1;
    }
    proof {
        assert(spec_sanitize_name(name@).take(n as int) =~= spec_sanitize_name(name@));
    }
    out
}

/// A nonempty run of lower-case ASCII letters.
pub open spec fn lower_word(s: Seq<char>) -> bool {
    s.len() > 0 && forall|i: int| 0 <= i < s.len() ==> 97 <= (#[trigger] s[i]) as u32 <= 122
}

/// Two lower-case words joined by a single hyphen.
pub open spec fn two_word_name(s: Seq<char>) -> bool {
    exists|i: int|
        0 < i < s.len() && #[trigger] s[i] == '-' && lower_word(s.take(i)) && lower_word(
            s.skip(i + 1),
        )
}

/// Relies on `petname::petname` with its default (medium English) word
/// lists: every word in those lists is a nonempty run of lower-case ASCII
/// letters, so a two-word name is two such words joined by the separator.
#[verifier::external_body]
fn petname_two_words() -> (r: Option<String>)
    ensures
        r is Some ==> two_word_name(r->0@),
{
    petname::petname(2, "-")
}

/// Generates a random two-word branch suffix, falling back to a fixed
/// name if the generator yields nothing.
pub fn generate_random_name() -> (r: String)
    ensures
        two_word_name(r@),
{
    match petname_two_words() {
        Some(s) => s,
        None => {
            let r = String::from_str("random-branch");
            proof {
                reveal_strlit("random-branch");
                assert(r@.len() == 13);
                assert(r@[6] == '-');
                assert(lower_word(r@.take(6)));
                assert(lower_word(r@.skip(7)));
            }
            r
        },
    }
}

/// The branch name of a new worktree: `{prefix}/{date}_{suffix}`.
pub open spec fn spec_branch_name(prefix: Seq<char>, date: Seq<char>, suffix: Seq<char>) -> Seq<
    char,
> {
    prefix + "/"@ + date + "_"@ + suffix
}

/// Composes the branch name of a new worktree.
pub fn compose_branch_name(prefix: &str, date: &str, suffix: &str) -> (r: String)
    ensures
        r@ == spec_branch_name(prefix@, date@, suffix@),
{
    String::from_str(prefix).concat("/").concat(date).concat("_").concat(suffix)
}

/// Joins two path fragments with a single separator.
pub fn join_path(a: &str, b: &str) -> (r: String)
    ensures
        r@ == a@ + "/"@ + b@,
{
    String::from_str(a).concat("/").concat(b)
}

/// The branch suffix chosen from what the user typed: the trimmed input,
/// sanitized; or a fresh random two-word name when the input is blank.
pub fn suffix_from_input(input: &str) -> (r: String)
    ensures
        crate::strutil::spec_trim(input@).len() == 0 ==> two_word_name(r@),
        crate::strutil::spec_trim(input@).len() > 0 ==> r@ == spec_sanitize_name(
            crate::strutil::spec_trim(input@),
        ),
{
    let trimmed = crate::strutil::trim_str(input);
    if trimmed.as_str().unicode_len() == 0 {
        generate_random_name()
    } else {
        sanitize_name(trimmed.as_str())
    }
}

} // verus!
