//! Substring scanning over character sequences: find the first
//! occurrence of a pattern, and splice a replacement over it.

use vstd::prelude::*;

verus! {

/// `pat` occurs in `s` starting at position `i`.
pub open spec fn matches_at(s: Seq<char>, pat: Seq<char>, i: int) -> bool {
    &&& 0 <= i
    &&& i + pat.len() <= s.len()
    &&& forall|k: int| 0 <= k < pat.len() ==> s[i + k] == pat[k]
}

/// Position of the first occurrence of `pat` in `s` at or after `i`.
pub open spec fn find_from_spec(s: Seq<char>, pat: Seq<char>, i: int) -> Option<int>
    decreases s.len() + pat.len() - i,
{
    if i + pat.len() > s.len() {
        None
    } else if matches_at(s, pat, i) {
        Some(i)
    } else {
        find_from_spec(s, pat, i + 1)
    }
}

/// Position of the first occurrence of `pat` in `s`, if any.
pub open spec fn find_spec(s: Seq<char>, pat: Seq<char>) -> Option<int> {
    find_from_spec(s, pat, 0)
}

/// A found position is a match, and the earliest one at or after `j`.
pub proof fn lemma_find_from_some(s: Seq<char>, pat: Seq<char>, j: int, i: int)
    requires
        find_from_spec(s, pat, j) == Some(i),
    ensures
        j <= i,
        matches_at(s, pat, i),
        forall|k: int| j <= k < i ==> !matches_at(s, pat, k),
    decreases s.len() + pat.len() - j,
{
    if j + pat.len() <= s.len() && !matches_at(s, pat, j) {
        lemma_find_from_some(s, pat, j + 1, i);
    }
}

/// `pat` occurs in `s` at position `i` exactly.
fn is_match_at(s: &str, pat: &str, i: usize) -> (b: bool)
    requires
        i + pat@.len() <= s@.len(),
    ensures
        b == matches_at(s@, pat@, i as int),
{
    let m = pat.unicode_len();
    let n = s.unicode_len();
    let mut j: usize = 0;
    while j < m
        invariant
            m == pat@.len(),
            i + m <= n,
            n == s@.len(),
            j <= m,
            forall|k: int| 0 <= k < j ==> s@[i + k] == pat@[k],
        decreases m - j,
    {
        if s.get_char(i + j) != pat.get_char(j) {
            return false;
        }
        j = j + 1;
    }
    true
}

/// Position of the first occurrence of `pat` in `s`, if any.
pub fn find_first(s: &str, pat: &str) -> (r: Option<usize>)
    ensures
        match r {
            Some(i) => find_spec(s@, pat@) == Some(i as int),
            None => find_spec(s@, pat@) is None,
        },
{
    let n = s.unicode_len();
    let m = pat.unicode_len();
    if m > n {
        return None;
    }
    let limit = n - m;
    let mut i: usize = 0;
    while i <= limit
        invariant
            m <= n,
            n == s@.len(),
            m == pat@.len(),
            limit == n - m,
            i <= limit,
            find_from_spec(s@, pat@, 0) == find_from_spec(s@, pat@, i as int),
        decreases limit - i,
    {
        if is_match_at(s, pat, i) {
            return Some(i);
        }
        if i == limit {
            proof {
                assert(find_from_spec(s@, pat@, i as int) == find_from_spec(s@, pat@, i + 1));
                assert(find_from_spec(s@, pat@, i + 1) is None);
            }
            return None;
        }
        i = i + 1;
    }
    None
}

/// `s` with its first occurrence of `pat`, if one exists, replaced by
/// `to`; `s` unchanged otherwise.
pub open spec fn replace_first_spec(s: Seq<char>, pat: Seq<char>, to: Seq<char>) -> Seq<char> {
    match find_spec(s, pat) {
        None => s,
        Some(i) => s.subrange(0, i) + to + s.subrange(i + pat.len(), s.len() as int),
    }
}

/// Replace the first occurrence of `pat` in `s` by `to`; return `s`
/// unchanged when `pat` does not occur.
pub fn replace_first(s: &str, pat: &str, to: &str) -> (r: String)
    ensures
        r@ == replace_first_spec(s@, pat@, to@),
{
    match find_first(s, pat) {
        None => String::from_str(s),
        Some(i) => {
            proof {
                lemma_find_from_some(s@, pat@, 0, i as int);
            }
            let n = s.unicode_len();
            let m = pat.unicode_len();
            let prefix = s.substring_char(0, i);
            let suffix = s.substring_char(i + m, n);
            let mut r = String::from_str(prefix);
            r.append(to);
            r.append(suffix);
            r
        },
    }
}

} // verus!
