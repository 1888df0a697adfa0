//! Extraction of the (owner, repository) pair out of a URL.
//!
//! A URL is recognised when it contains the hosting marker `github.com/`;
//! the owner and repository names are the first two non-empty path segments
//! after the first occurrence of the marker. Absence of the marker or of two
//! segments is a normal outcome, never an error.

use vstd::prelude::*;

verus! {

/// The substring that identifies a repository-hosting URL.
pub open spec fn marker() -> Seq<char> {
    "github.com/"@
}

/// Whether the marker occupies positions `i .. i + marker().len()` of `s`.
pub open spec fn marker_at(s: Seq<char>, i: int) -> bool {
    &&& 0 <= i
    &&& i + marker().len() <= s.len()
    &&& s.subrange(i, i + marker().len() as int) == marker()
}

/// The first position at or after `i` where the marker occurs, if any.
pub open spec fn marker_from(s: Seq<char>, i: int) -> Option<int>
    decreases s.len() + 1 - i,
{
    if i < 0 || i + marker().len() > s.len() {
        None
    } else if marker_at(s, i) {
        Some(i)
    } else {
        marker_from(s, i + 1)
    }
}

/// The first index at or after `i` holding a path separator, or the length
/// of `s` when no separator follows.
pub open spec fn sep_at_or_after(s: Seq<char>, i: int) -> int
    decreases s.len() - i,
{
    if i < 0 || i >= s.len() {
        s.len() as int
    } else if s[i] == '/' {
        i
    } else {
        sep_at_or_after(s, i + 1)
    }
}

/// The first index at or after `i` holding anything but a path separator, or
/// the length of `s` when only separators follow.
pub open spec fn non_sep_at_or_after(s: Seq<char>, i: int) -> int
    decreases s.len() - i,
{
    if i < 0 || i >= s.len() {
        s.len() as int
    } else if s[i] != '/' {
        i
    } else {
        non_sep_at_or_after(s, i + 1)
    }
}

/// The first two non-empty path segments of `s` at or after position `p`.
pub open spec fn segments_from(s: Seq<char>, p: int) -> Option<(Seq<char>, Seq<char>)> {
    let a = non_sep_at_or_after(s, p);
    let b = sep_at_or_after(s, a);
    let c = non_sep_at_or_after(s, b);
    let d = sep_at_or_after(s, c);
    if a < s.len() && c < s.len() {
        Some((s.subrange(a, b), s.subrange(c, d)))
    } else {
        None
    }
}

/// What extraction returns: the first two non-empty path segments after the
/// first occurrence of the marker, or nothing when the marker is absent or
/// fewer than two non-empty segments follow it.
pub open spec fn extract_spec(s: Seq<char>) -> Option<(Seq<char>, Seq<char>)> {
    match marker_from(s, 0) {
        Some(i) => segments_from(s, i + marker().len()),
        None => None,
    }
}

/// A reported marker position is a real occurrence, and the first one at or
/// after the start of the search.
pub proof fn lemma_marker_from_found(s: Seq<char>, i: int, j: int)
    requires
        marker_from(s, i) == Some(j),
    ensures
        marker_at(s, j),
        i <= j,
        forall|k: int| i <= k < j ==> !marker_at(s, k),
    decreases s.len() + 1 - i,
{
    if i < 0 || i + marker().len() > s.len() {
        assert(false);
    } else if marker_at(s, i) {
    } else {
        lemma_marker_from_found(s, i + 1, j);
    }
}

/// Whether the characters of `pat` stand at positions `i ..` of `s`.
fn pattern_at(s: &str, i: usize, pat: &str, pat_len: usize, n: usize) -> (b: bool)
    requires
        pat_len == pat@.len(),
        n == s@.len(),
        i + pat_len <= n,
    ensures
        b == (s@.subrange(i as int, i + pat@.len()) == pat@),
{
    let mut j: usize = 0;
    while j < pat_len
        invariant
            pat_len == pat@.len(),
            n == s@.len(),
            i + pat_len <= n,
            j <= pat_len,
            forall|k: int| 0 <= k < j ==> s@[i + k] == pat@[k],
        decreases pat_len - j,
    {
        if s.get_char(i + j) != pat.get_char(j) {
            proof {
                assert(s@.subrange(i as int, i + pat@.len())[j as int] == s@[i + j]);
            }
            return false;
        }
        j += 1;
    }
    proof {
        assert(s@.subrange(i as int, i + pat@.len()) =~= pat@);
    }
    true
}

/// The position of the first marker occurrence in `s`, if any.
fn find_marker(s: &str) -> (r: Option<usize>)
    ensures
        match r {
            Some(i) => marker_from(s@, 0) == Some(i as int),
            None => marker_from(s@, 0) is None,
        },
{
    proof {
        reveal_strlit("github.com/");
    }
    let pat = "github.com/";
    let pat_len = pat.unicode_len();
    let n = s.unicode_len();
    if n < pat_len {
        return None;
    }
    let mut i: usize = 0;
    while i <= n - pat_len
        invariant
            n == s@.len(),
            pat@ == marker(),
            pat_len == marker().len(),
            1 <= pat_len <= n,
            i <= n - pat_len + 1,
            marker_from(s@, 0) == marker_from(s@, i as int),
        decreases n - i,
    {
        if pattern_at(s, i, pat, pat_len, n) {
            proof {
                assert(marker_at(s@, i as int));
            }
            return Some(i);
        }
        proof {
            assert(!marker_at(s@, i as int));
            assert(marker_from(s@, i as int) == marker_from(s@, i as int + 1));
        }
        i += 1;
    }
    proof {
        assert(marker_from(s@, i as int) is None);
    }
    None
}

/// The first index at or after `from` holding something other than `/`, or
/// `n` when only separators follow.
fn scan_non_sep(s: &str, from: usize, n: usize) -> (r: usize)
    requires
        n == s@.len(),
        from <= n,
    ensures
        r == non_sep_at_or_after(s@, from as int),
        from <= r <= n,
{
    let mut i = from;
    while i < n
        invariant
            n == s@.len(),
            from <= i <= n,
            non_sep_at_or_after(s@, from as int) == non_sep_at_or_after(s@, i as int),
        decreases n - i,
    {
        if s.get_char(i) != '/' {
            proof {
                assert(non_sep_at_or_after(s@, i as int) == i as int);
            }
            return i;
        }
        proof {
            assert(non_sep_at_or_after(s@, i as int) == non_sep_at_or_after(s@, i as int + 1));
        }
        i += 1;
    }
    proof {
        assert(non_sep_at_or_after(s@, i as int) == s@.len() as int);
    }
    i
}

/// The first index at or after `from` holding `/`, or `n` when no separator
/// follows.
fn scan_sep(s: &str, from: usize, n: usize) -> (r: usize)
    requires
        n == s@.len(),
        from <= n,
    ensures
        r == sep_at_or_after(s@, from as int),
        from <= r <= n,
{
    let mut i = from;
    while i < n
        invariant
            n == s@.len(),
            from <= i <= n,
            sep_at_or_after(s@, from as int) == sep_at_or_after(s@, i as int),
        decreases n - i,
    {
        if s.get_char(i) == '/' {
            proof {
                assert(sep_at_or_after(s@, i as int) == i as int);
            }
            return i;
        }
        proof {
            assert(sep_at_or_after(s@, i as int) == sep_at_or_after(s@, i as int + 1));
        }
        i += 1;
    }
    proof {
        assert(sep_at_or_after(s@, i as int) == s@.len() as int);
    }
    i
}

/// Up to the reported position only separators stand, and the position
/// itself, when inside the string, holds none.
pub proof fn lemma_non_sep_at_or_after(s: Seq<char>, i: int)
    requires
        0 <= i <= s.len(),
    ensures
        i <= non_sep_at_or_after(s, i) <= s.len(),
        non_sep_at_or_after(s, i) < s.len() ==> s[non_sep_at_or_after(s, i)] != '/',
        forall|k: int| i <= k < non_sep_at_or_after(s, i) ==> s[k] == '/',
    decreases s.len() - i,
{
    if i < s.len() && s[i] == '/' {
        lemma_non_sep_at_or_after(s, i + 1);
    }
}

/// Up to the reported position no separator stands, and the position itself,
/// when inside the string, holds one.
pub proof fn lemma_sep_at_or_after(s: Seq<char>, i: int)
    requires
        0 <= i <= s.len(),
    ensures
        i <= sep_at_or_after(s, i) <= s.len(),
        sep_at_or_after(s, i) < s.len() ==> s[sep_at_or_after(s, i)] == '/',
        forall|k: int| i <= k < sep_at_or_after(s, i) ==> s[k] != '/',
    decreases s.len() - i,
{
    if i < s.len() && s[i] != '/' {
        lemma_sep_at_or_after(s, i + 1);
    }
}

/// What extraction hands back are path segments proper: both names are
/// non-empty and neither contains a separator.
pub proof fn lemma_extract_segments(s: Seq<char>, owner: Seq<char>, repo: Seq<char>)
    requires
        extract_spec(s) == Some((owner, repo)),
    ensures
        owner.len() > 0,
        repo.len() > 0,
        forall|k: int| 0 <= k < owner.len() ==> owner[k] != '/',
        forall|k: int| 0 <= k < repo.len() ==> repo[k] != '/',
{
    match marker_from(s, 0) {
        Some(mi) => {
            lemma_marker_from_found(s, 0, mi);
            let p = mi + marker().len();
            lemma_non_sep_at_or_after(s, p as int);
            let a = non_sep_at_or_after(s, p as int);
            lemma_sep_at_or_after(s, a);
            let b = sep_at_or_after(s, a);
            lemma_non_sep_at_or_after(s, b);
            let c = non_sep_at_or_after(s, b);
            lemma_sep_at_or_after(s, c);
        },
        None => {
            assert(false);
        },
    }
}

/// The prefix that marks a self post, one with no external link.
pub open spec fn self_marker() -> Seq<char> {
    "self."@
}

/// Whether a domain classification names a self post.
pub open spec fn is_self_domain(d: Seq<char>) -> bool {
    self_marker().len() <= d.len() && d.subrange(0, self_marker().len() as int) == self_marker()
}

/// Whether the domain starts with the self-post prefix.
pub fn starts_with_self(d: &str) -> (b: bool)
    ensures
        b == is_self_domain(d@),
{
    let pat = "self.";
    let pat_len = pat.unicode_len();
    let n = d.unicode_len();
    if n < pat_len {
        return false;
    }
    pattern_at(d, 0, pat, pat_len, n)
}

/// Attempt to pull an owner name and a repository name from a hosting URL.
///
/// The result equals [`extract_spec`] of the input: the first two non-empty
/// path segments after the first occurrence of the hosting marker, or
/// nothing when the marker is absent or fewer than two segments follow it.
pub fn extract_gh_info(url: &str) -> (r: Option<(String, String)>)
    ensures
        match r {
            Some(p) => extract_spec(url@) == Some((p.0@, p.1@)),
            None => extract_spec(url@) is None,
        },
{
    proof {
        reveal_strlit("github.com/");
    }
    let start = match find_marker(url) {
        Some(i) => i,
        None => {
            return None;
        },
    };
    proof {
        lemma_marker_from_found(url@, 0, start as int);
    }
    let n = url.unicode_len();
    let p = start + 11;
    let a = scan_non_sep(url, p, n);
    if a >= n {
        return None;
    }
    let b = scan_sep(url, a, n);
    let c = scan_non_sep(url, b, n);
    if c >= n {
        return None;
    }
    let d = scan_sep(url, c, n);
    let owner = url.substring_char(a, b).to_owned();
    let name = url.substring_char(c, d).to_owned();
    Some((owner, name))
}

} // verus!
