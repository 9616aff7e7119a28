//! Searching and splitting sequences at a separator.

use vstd::prelude::*;
use vstd::slice::slice_subrange;

verus! {

/// `pat` stands in `s` at position `i`.
pub open spec fn occurs_at<A>(s: Seq<A>, pat: Seq<A>, i: int) -> bool {
    0 <= i && i + pat.len() <= s.len() && s.subrange(i, i + pat.len()) == pat
}

/// `pat` stands in `s` at position `i`, and at no position before it.
pub open spec fn first_at<A>(s: Seq<A>, pat: Seq<A>, i: int) -> bool {
    occurs_at(s, pat, i) && forall|j: int| 0 <= j < i ==> !occurs_at(s, pat, j)
}

/// The position of the first occurrence of `pat` in `s`.
pub open spec fn find<A>(s: Seq<A>, pat: Seq<A>) -> Option<int> {
    if exists|i: int| first_at(s, pat, i) {
        Some(choose|i: int| first_at(s, pat, i))
    } else {
        None
    }
}

/// What stands before the first occurrence of `sep`: all of `s` where
/// `sep` does not occur.
pub open spec fn before_first<A>(s: Seq<A>, sep: Seq<A>) -> Seq<A> {
    match find(s, sep) {
        Some(i) => s.take(i),
        None => s,
    }
}

/// What stands behind the first occurrence of `sep`, if it occurs.
pub open spec fn after_first<A>(s: Seq<A>, sep: Seq<A>) -> Option<Seq<A>> {
    match find(s, sep) {
        Some(i) => Some(s.skip(i + sep.len())),
        None => None,
    }
}

/// What stands between the first and the second occurrence of `sep` (or
/// the end, where it occurs once), if it occurs at all.
pub open spec fn second_piece<A>(s: Seq<A>, sep: Seq<A>) -> Option<Seq<A>> {
    match after_first(s, sep) {
        Some(rest) => Some(before_first(rest, sep)),
        None => None,
    }
}

/// `s` begins with `pat`.
pub open spec fn starts_with<A>(s: Seq<A>, pat: Seq<A>) -> bool {
    occurs_at(s, pat, 0)
}

/// A first occurrence is the one that `find` gives.
pub proof fn lemma_find_first<A>(s: Seq<A>, pat: Seq<A>, i: int)
    requires
        first_at(s, pat, i),
    ensures
        find(s, pat) == Some(i),
{
    let j = choose|j: int| first_at(s, pat, j);
    assert(first_at(s, pat, j));
    if j < i {
        assert(!occurs_at(s, pat, j));
    } else if i < j {
        assert(!occurs_at(s, pat, i));
    }
}

/// Where `pat` occurs nowhere, `find` gives nothing.
pub proof fn lemma_find_none<A>(s: Seq<A>, pat: Seq<A>)
    requires
        forall|i: int| !occurs_at(s, pat, i),
    ensures
        find(s, pat) is None,
{
    if exists|i: int| first_at(s, pat, i) {
        let i = choose|i: int| first_at(s, pat, i);
        assert(occurs_at(s, pat, i));
    }
}

/// What `find` gives is a first occurrence, and lies within `s`.
pub proof fn lemma_find_some<A>(s: Seq<A>, pat: Seq<A>)
    ensures
        find(s, pat) matches Some(i) ==> first_at(s, pat, i) && 0 <= i && i + pat.len() <= s.len(),
        find(s, pat) is None ==> forall|i: int| !occurs_at(s, pat, i),
{
    if find(s, pat) is None {
        assert forall|i: int| !occurs_at(s, pat, i) by {
            if occurs_at(s, pat, i) {
                lemma_least_occurrence(s, pat, i);
            }
        }
    }
}

/// Where `pat` occurs at all, it has a first occurrence.
pub proof fn lemma_least_occurrence<A>(s: Seq<A>, pat: Seq<A>, i: int)
    requires
        occurs_at(s, pat, i),
    ensures
        exists|k: int| first_at(s, pat, k),
    decreases i,
{
    if forall|j: int| 0 <= j < i ==> !occurs_at(s, pat, j) {
        assert(first_at(s, pat, i));
    } else {
        let j = choose|j: int| 0 <= j < i && occurs_at(s, pat, j);
        lemma_least_occurrence(s, pat, j);
    }
}

/// `pat` stands in `s` at position `i`, and at no position behind it.
pub open spec fn last_at<A>(s: Seq<A>, pat: Seq<A>, i: int) -> bool {
    occurs_at(s, pat, i) && forall|j: int| i < j ==> !occurs_at(s, pat, j)
}

/// The position of the last occurrence of `pat` in `s`.
pub open spec fn find_last<A>(s: Seq<A>, pat: Seq<A>) -> Option<int> {
    if exists|i: int| last_at(s, pat, i) {
        Some(choose|i: int| last_at(s, pat, i))
    } else {
        None
    }
}

/// A last occurrence is the one that `find_last` gives.
pub proof fn lemma_find_last<A>(s: Seq<A>, pat: Seq<A>, i: int)
    requires
        last_at(s, pat, i),
    ensures
        find_last(s, pat) == Some(i),
{
    let j = choose|j: int| last_at(s, pat, j);
    assert(last_at(s, pat, j));
    if j < i {
        assert(!occurs_at(s, pat, i));
    } else if i < j {
        assert(!occurs_at(s, pat, j));
    }
}

/// Where `pat` occurs nowhere, `find_last` gives nothing.
pub proof fn lemma_find_last_none<A>(s: Seq<A>, pat: Seq<A>)
    requires
        forall|i: int| !occurs_at(s, pat, i),
    ensures
        find_last(s, pat) is None,
{
    if exists|i: int| last_at(s, pat, i) {
        let i = choose|i: int| last_at(s, pat, i);
        assert(occurs_at(s, pat, i));
    }
}

/// Whether `pat` stands in `hay` at position `i`.
pub fn matches_at(hay: &[u8], pat: &[u8], i: usize) -> (b: bool)
    ensures
        b == occurs_at(hay@, pat@, i as int),
{
    let n = hay.len();
    let m = pat.len();
    if m > n || i > n - m {
        return false;
    }
    let mut k: usize = 0;
    while k < m
        invariant
            k <= m,
            m == pat@.len(),
            n == hay@.len(),
            i + m <= n,
            forall|j: int| 0 <= j < k ==> hay@[i + j] == pat@[j],
        decreases m - k,
    {
        if hay[i + k] != pat[k] {
            assert(hay@.subrange(i as int, i + pat@.len())[k as int] != pat@[k as int]);
            return false;
        }
        k += 1;
    }
    assert(hay@.subrange(i as int, i + pat@.len()) =~= pat@);
    true
}

/// The position of the first occurrence of `pat` in `hay`.
pub fn find_bytes(hay: &[u8], pat: &[u8]) -> (r: Option<usize>)
    ensures
        match r {
            Some(i) => find(hay@, pat@) == Some(i as int) && i + pat@.len() <= hay@.len(),
            None => find(hay@, pat@) is None,
        },
{
    let n = hay.len();
    let m = pat.len();
    if m > n {
        proof {
            lemma_find_none(hay@, pat@);
        }
        return None;
    }
    let last = n - m;
    let mut i: usize = 0;
    while i <= last
        invariant
            i <= last + 1,
            n == hay@.len(),
            m == pat@.len(),
            last + m == n,
            forall|j: int| 0 <= j < i ==> !occurs_at(hay@, pat@, j),
        decreases last + 1 - i,
    {
        if matches_at(hay, pat, i) {
            proof {
                lemma_find_first(hay@, pat@, i as int);
            }
            return Some(i);
        }
        if i == last {
            proof {
                lemma_find_none(hay@, pat@);
            }
            return None;
        }
        i += 1;
    }
    proof {
        lemma_find_none(hay@, pat@);
    }
    None
}

/// Whether `hay` begins with `pat`.
pub fn starts_with_bytes(hay: &[u8], pat: &[u8]) -> (b: bool)
    ensures
        b == starts_with(hay@, pat@),
{
    matches_at(hay, pat, 0)
}

/// The part of `s` before the first occurrence of `sep`, and the part
/// behind it where it occurs.
pub fn split_first<'a>(s: &'a [u8], sep: &[u8]) -> (r: (&'a [u8], Option<&'a [u8]>))
    ensures
        r.0@ == before_first(s@, sep@),
        r.1 is Some <==> after_first(s@, sep@) is Some,
        r.1 matches Some(rest) ==> after_first(s@, sep@) == Some(rest@),
{
    match find_bytes(s, sep) {
        Some(i) => {
            let n = s.len();
            let head = slice_subrange(s, 0, i);
            let rest = slice_subrange(s, i + sep.len(), n);
            (head, Some(rest))
        },
        None => (s, None),
    }
}

} // verus!
