//! Small verified string utilities shared by the other modules, together
//! with the few trusted declarations of `std` string operations that vstd
//! does not specify.

use vstd::prelude::*;

verus! {

/// Relies on `String::push`: appends one character at the end of the string.
#[verifier::external_body]
pub fn push_char(s: &mut String, c: char)
    ensures
        final(s)@ == old(s)@.push(c),
{
    s.push(c)
}

/// Relies on `str`'s `PartialEq`: two string slices are equal exactly when
/// their character sequences are equal.
#[verifier::external_body]
pub fn str_eq(a: &str, b: &str) -> (r: bool)
    ensures
        r == (a@ == b@),
{
    a == b
}

/// Whether `char::is_alphanumeric` holds of a character.  The exact Unicode
/// classification is not restated here.
pub uninterp spec fn char_alnum(c: char) -> bool;

/// Relies on `char::is_alphanumeric`: a pure classification of one
/// character, named by `char_alnum`.
#[verifier::external_body]
pub fn is_alphanumeric_char(c: char) -> (r: bool)
    ensures
        r == char_alnum(c),
{
    c.is_alphanumeric()
}

/// The decimal digit character for a value below ten.
pub open spec fn digit_char(d: nat) -> char {
    if d == 0 { '0' }
    else if d == 1 { '1' }
    else if d == 2 { '2' }
    else if d == 3 { '3' }
    else if d == 4 { '4' }
    else if d == 5 { '5' }
    else if d == 6 { '6' }
    else if d == 7 { '7' }
    else if d == 8 { '8' }
    else { '9' }
}

/// The usual decimal rendering of a natural number, most significant digit
/// first, with no leading zeros (except for zero itself).
pub open spec fn spec_dec(n: nat) -> Seq<char>
    decreases n,
{
    if n < 10 {
        seq![digit_char(n)]
    } else {
        spec_dec(n / 10) + seq![digit_char(n % 10)]
    }
}

/// Renders a number in decimal.
pub fn u64_to_dec(n: u64) -> (r: String)
    ensures
        r@ == spec_dec(n as nat),
{
    let mut digits: Vec<char> = Vec::new();
    let mut m: u64 = n;
    while m >= 10
        invariant
            spec_dec(n as nat) =~= spec_dec(m as nat) + digits@.reverse(),
        decreases m,
    {
        let c: char = digit_of_u64(m % 10);
        proof {
            assert(digits@.push(c).reverse() =~= seq![c] + digits@.reverse());
            assert(spec_dec(m as nat)
                == spec_dec((m / 10) as nat) + seq![digit_char((m % 10) as nat)]);
            assert(spec_dec((m / 10) as nat) + digits@.push(c).reverse()
                =~= spec_dec(m as nat) + digits@.reverse());
        }
        digits.push(c);
        m = m / 10;
    }
    let c: char = digit_of_u64(m);
    proof {
        assert(digits@.push(c).reverse() =~= seq![c] + digits@.reverse());
        assert(spec_dec(m as nat) == seq![digit_char(m as nat)]);
        assert(spec_dec(n as nat) =~= digits@.push(c).reverse());
    }
    digits.push(c);
    let mut out = String::new();
    let mut i: usize = digits.len();
    assert(out@ =~= digits@.reverse().take(0));
    while i > 0
        invariant
            i <= digits@.len(),
            out@ =~= digits@.reverse().take(digits@.len() - i),
            spec_dec(n as nat) =~= digits@.reverse(),
        decreases i,
    {
        i = i - 1;
        let c = digits[i];
        proof {
            assert(digits@.reverse()[digits@.len() - i - 1] == digits@[i as int]);
            assert(digits@.reverse().take(digits@.len() - i)
                =~= digits@.reverse().take(digits@.len() - i - 1).push(digits@[i as int]));
        }
        push_char(&mut out, c);
    }
    proof {
        assert(out@ =~= digits@.reverse());
    }
    out
}

/// Whether `s` begins with `p`.
pub open spec fn spec_starts_with(s: Seq<char>, p: Seq<char>) -> bool {
    s.len() >= p.len() && s.subrange(0, p.len() as int) == p
}

/// Tests whether a string begins with a prefix.
pub fn str_starts_with(s: &str, p: &str) -> (r: bool)
    ensures
        r == spec_starts_with(s@, p@),
{
    let n = s.unicode_len();
    let m = p.unicode_len();
    if n < m {
        return false;
    }
    let mut i: usize = 0;
    while i < m
        invariant
            n == s@.len(),
            m == p@.len(),
            m <= n,
            i <= m,
            forall|j: int| 0 <= j < i ==> s@[j] == p@[j],
        decreases m - i,
    {
        if s.get_char(i) != p.get_char(i) {
            assert(s@.subrange(0, m as int)[i as int] != p@[i as int]);
            return false;
        }
        i = i + 1;
    }
    proof {
        assert(s@.subrange(0, m as int) =~= p@);
    }
    true
}

/// Whether `s` ends with `p`.
pub open spec fn spec_ends_with(s: Seq<char>, p: Seq<char>) -> bool {
    s.len() >= p.len() && s.skip(s.len() - p.len()) == p
}

/// Tests whether a string ends with a suffix.
pub fn str_ends_with(s: &str, p: &str) -> (r: bool)
    ensures
        r == spec_ends_with(s@, p@),
{
    let n = s.unicode_len();
    let m = p.unicode_len();
    if n < m {
        return false;
    }
    let base = n - m;
    let mut i: usize = 0;
    while i < m
        invariant
            n == s@.len(),
            m == p@.len(),
            m <= n,
            base == n - m,
            i <= m,
            forall|j: int| 0 <= j < i ==> s@[base + j] == p@[j],
        decreases m - i,
    {
        if s.get_char(base + i) != p.get_char(i) {
            assert(s@.skip(base as int)[i as int] != p@[i as int]);
            return false;
        }
        i = i + 1;
    }
    proof {
        assert(s@.skip(base as int) =~= p@);
    }
    true
}

/// The largest slash position strictly before `end`, or `-1` if there is
/// none.
pub open spec fn last_slash_before(s: Seq<char>, end: int) -> int
    decreases end,
{
    if end <= 0 {
        -1
    } else if s[end - 1] == '/' {
        end - 1
    } else {
        last_slash_before(s, end - 1)
    }
}

/// Finds the last slash strictly before `end`.
pub fn find_last_slash_before(s: &str, n: usize, end: usize) -> (r: Option<usize>)
    requires
        n == s@.len(),
        end <= n,
    ensures
        match r {
            Some(i) => last_slash_before(s@, end as int) == i && i < end,
            None => last_slash_before(s@, end as int) == -1,
        },
{
    let mut k = end;
    while k > 0
        invariant
            n == s@.len(),
            k <= end <= n,
            last_slash_before(s@, end as int) == last_slash_before(s@, k as int),
        decreases k,
    {
        if s.get_char(k - 1) == '/' {
            return Some(k - 1);
        }
        k = k - 1;
    }
    None
}

/// Whether `pat` occurs in `s` at position `i`.
pub open spec fn is_match_at(s: Seq<char>, pat: Seq<char>, i: int) -> bool {
    0 <= i && i + pat.len() <= s.len() && s.subrange(i, i + pat.len()) == pat
}

/// The first position at or after `i` where `pat` occurs, or `-1`.
pub open spec fn first_match_from(s: Seq<char>, pat: Seq<char>, i: int) -> int
    decreases s.len() - i,
{
    if i < 0 || i + pat.len() > s.len() {
        -1
    } else if pat.len() == 0 {
        i
    } else if is_match_at(s, pat, i) {
        i
    } else {
        first_match_from(s, pat, i + 1)
    }
}

/// Whether `pat` occurs in `s` starting at exec position `i`.
fn match_at(s: &str, n: usize, pat: &str, m: usize, i: usize) -> (r: bool)
    requires
        n == s@.len(),
        m == pat@.len(),
        i + m <= n,
    ensures
        r == is_match_at(s@, pat@, i as int),
{
    let mut j: usize = 0;
    while j < m
        invariant
            n == s@.len(),
            m == pat@.len(),
            i + m <= n,
            j <= m,
            forall|t: int| 0 <= t < j ==> s@[i + t] == pat@[t],
        decreases m - j,
    {
        if s.get_char(i + j) != pat.get_char(j) {
            assert(s@.subrange(i as int, i + m)[j as int] != pat@[j as int]);
            return false;
        }
        j = j + 1;
    }
    proof {
        assert(s@.subrange(i as int, i + m) =~= pat@);
    }
    true
}

/// Finds the first occurrence of `pat` in `s`.
pub fn find_first(s: &str, pat: &str) -> (r: Option<usize>)
    ensures
        match r {
            Some(i) => first_match_from(s@, pat@, 0) == i && i + pat@.len() <= s@.len(),
            None => first_match_from(s@, pat@, 0) == -1,
        },
{
    let n = s.unicode_len();
    let m = pat.unicode_len();
    if m > n {
        return None;
    }
    if m == 0 {
        return Some(0);
    }
    let bound = n - m;
    let mut i: usize = 0;
    while i <= bound
        invariant
            n == s@.len(),
            m == pat@.len(),
            0 < m <= n,
            bound == n - m,
            i <= bound + 1,
            first_match_from(s@, pat@, 0) == first_match_from(s@, pat@, i as int),
        decreases n - i,
    {
        if match_at(s, n, pat, m, i) {
            return Some(i);
        }
        i = i + 1;
    }
    None
}

/// Helper for `u64_to_dec`: the digit character of a value below ten.
fn digit_of_u64(d: u64) -> (c: char)
    requires
        d < 10,
    ensures
        c == digit_char(d as nat),
{
    if d == 0 { '0' }
    else if d == 1 { '1' }
    else if d == 2 { '2' }
    else if d == 3 { '3' }
    else if d == 4 { '4' }
    else if d == 5 { '5' }
    else if d == 6 { '6' }
    else if d == 7 { '7' }
    else if d == 8 { '8' }
    else { '9' }
}

/// Whether `char::is_whitespace` holds of a character.  The exact Unicode
/// classification is not restated here.
pub uninterp spec fn char_ws(c: char) -> bool;

/// Relies on `char::is_whitespace`: a pure classification of one
/// character, named by `char_ws`.
#[verifier::external_body]
pub fn is_whitespace_char(c: char) -> (r: bool)
    ensures
        r == char_ws(c),
{
    c.is_whitespace()
}

/// The position of the first non-whitespace character at or after `i`,
/// or the length when there is none.
pub open spec fn first_non_ws(s: Seq<char>, i: int) -> int
    decreases s.len() - i,
{
    if i < 0 || i >= s.len() {
        s.len() as int
    } else if char_ws(s[i]) {
        first_non_ws(s, i + 1)
    } else {
        i
    }
}

/// One past the position of the last non-whitespace character strictly
/// before `end`, or `0` when there is none.
pub open spec fn last_non_ws(s: Seq<char>, end: int) -> int
    decreases end,
{
    if end <= 0 {
        0
    } else if char_ws(s[end - 1]) {
        last_non_ws(s, end - 1)
    } else {
        end
    }
}

/// The string without leading and trailing whitespace.
pub open spec fn spec_trim(s: Seq<char>) -> Seq<char> {
    let a = first_non_ws(s, 0);
    let b = last_non_ws(s, s.len() as int);
    if a < b {
        s.subrange(a, b)
    } else {
        Seq::empty()
    }
}

/// Removes leading and trailing whitespace.
pub fn trim_str(s: &str) -> (r: String)
    ensures
        r@ == spec_trim(s@),
{
    let n = s.unicode_len();
    let mut a: usize = 0;
    while a < n && is_whitespace_char(s.get_char(a))
        invariant
            n == s@.len(),
            a <= n,
            first_non_ws(s@, 0) == first_non_ws(s@, a as int),
        decreases n - a,
    {
        proof {
            assert(first_non_ws(s@, a as int) == first_non_ws(s@, a + 1));
        }
        a = a + 1;
    }
    proof {
        assert(first_non_ws(s@, a as int) == a);
    }
    let mut b: usize = n;
    while b > 0 && is_whitespace_char(s.get_char(b - 1))
        invariant
            n == s@.len(),
            b <= n,
            last_non_ws(s@, n as int) == last_non_ws(s@, b as int),
        decreases b,
    {
        proof {
            assert(last_non_ws(s@, b as int) == last_non_ws(s@, b - 1));
        }
        b = b - 1;
    }
    proof {
        assert(last_non_ws(s@, b as int) == b);
    }
    if a < b {
        let t = s.substring_char(a, b);
        String::from_str(t)
    } else {
        String::new()
    }
}

} // verus!
