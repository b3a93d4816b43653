//! Substring search and the URL-scheme decision for newly created pastes.

use vstd::prelude::*;

verus! {

/// The pattern `p` occurs in `s` starting at position `i`.
pub open spec fn is_substring_at(s: Seq<char>, p: Seq<char>, i: int) -> bool {
    0 <= i && i + p.len() <= s.len() && s.subrange(i, i + p.len()) == p
}

/// The pattern `p` occurs somewhere in `s`.
pub open spec fn has_substring(s: Seq<char>, p: Seq<char>) -> bool {
    exists|i: int| is_substring_at(s, p, i)
}

/// The scheme used to build the URL returned for a new paste: hosts that
/// contain a loopback marker get the insecure scheme, all others the secure
/// one.
pub open spec fn scheme_spec(host: Seq<char>) -> Seq<char> {
    if has_substring(host, "127.0.0.1"@) || has_substring(host, "localhost"@) {
        "http"@
    } else {
        "https"@
    }
}

/// Does `p` occur in `s` starting exactly at `i`?
fn matches_at(s: &str, p: &str, i: usize, m: usize) -> (r: bool)
    requires
        m == p@.len(),
        i + m <= s@.len(),
        s@.len() <= usize::MAX,
    ensures
        r == is_substring_at(s@, p@, i as int),
{
    let mut j: usize = 0;
    while j < m
        invariant
            j <= m,
            m == p@.len(),
            i + m <= s@.len(),
            s@.len() <= usize::MAX,
            forall|k: int| 0 <= k < j ==> s@[i + k] == p@[k],
        decreases m - j,
    {
        if s.get_char(i + j) != p.get_char(j) {
            assert(s@.subrange(i as int, i + m) != p@) by {
                assert(s@.subrange(i as int, i + m)[j as int] == s@[i + j]);
            }
            return false;
        }
        j += 1;
    }
    assert(s@.subrange(i as int, i + m) =~= p@);
    true
}

/// Does `p` occur anywhere in `s`?
pub fn contains_str(s: &str, p: &str) -> (r: bool)
    ensures
        r == has_substring(s@, p@),
{
    let n = s.unicode_len();
    let m = p.unicode_len();
    if m > n {
        assert(!has_substring(s@, p@));
        return false;
    }
    if m == 0 {
        assert(is_substring_at(s@, p@, 0)) by {
            assert(s@.subrange(0, 0) =~= p@);
        }
        return true;
    }
    let mut i: usize = 0;
    while i <= n - m
        invariant
            1 <= m <= n,
            n == s@.len(),
            m == p@.len(),
            i <= n - m + 1,
            forall|k: int| 0 <= k < i ==> !is_substring_at(s@, p@, k),
        decreases n - m + 1 - i,
    {
        if matches_at(s, p, i, m) {
            return true;
        }
        i += 1;
    }
    assert(forall|k: int| is_substring_at(s@, p@, k) ==> 0 <= k <= n - m);
    false
}

/// Decide the URL scheme from the request's host header: a host that
/// textually contains `127.0.0.1` or `localhost` is served over `http`,
/// any other over `https`.
pub fn scheme(host: &str) -> (r: &'static str)
    ensures
        r@ == scheme_spec(host@),
{
    if contains_str(host, "127.0.0.1") || contains_str(host, "localhost") {
        "http"
    } else {
        "https"
    }
}

} // verus!
