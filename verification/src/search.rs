//! Searching a line for a query, grapheme by grapheme.
//!
//! Both the line and the query are taken as sequences of graphemes. The
//! query occurs at a grapheme of the line when the graphemes from there on
//! are the graphemes of the query, one for one: a match neither starts nor
//! ends inside a cluster.

use crate::grapheme::views;
use vstd::prelude::*;

verus! {

/// The graphemes `query` stand in `clusters` from grapheme `i` on, and none
/// of them at grapheme `end` or beyond.
pub open spec fn occurs_at(
    clusters: Seq<Seq<char>>,
    query: Seq<Seq<char>>,
    i: int,
    end: int,
) -> bool {
    &&& 0 <= i
    &&& i + query.len() <= end <= clusters.len()
    &&& clusters.subrange(i, i + query.len()) == query
}

/// `query` occurs at none of the graphemes `lo..hi`, looking no further than
/// grapheme `end`.
pub open spec fn no_match_in(
    clusters: Seq<Seq<char>>,
    query: Seq<Seq<char>>,
    lo: int,
    hi: int,
    end: int,
) -> bool {
    forall|j: int| lo <= j < hi ==> !occurs_at(clusters, query, j, end)
}

/// `found` is the first grapheme in `lo..hi` at which `query` occurs within
/// the graphemes before `hi`, or `None` where there is no such grapheme.
pub open spec fn is_first_in(
    clusters: Seq<Seq<char>>,
    query: Seq<Seq<char>>,
    lo: int,
    hi: int,
    found: Option<usize>,
) -> bool {
    match found {
        Some(i) => {
            &&& lo <= i < hi
            &&& occurs_at(clusters, query, i as int, hi)
            &&& no_match_in(clusters, query, lo, i as int, hi)
        },
        None => no_match_in(clusters, query, lo, hi, hi),
    }
}

/// `found` is the last grapheme in `lo..hi` at which `query` occurs within
/// the graphemes before `hi`, or `None` where there is no such grapheme.
pub open spec fn is_last_in(
    clusters: Seq<Seq<char>>,
    query: Seq<Seq<char>>,
    lo: int,
    hi: int,
    found: Option<usize>,
) -> bool {
    match found {
        Some(i) => {
            &&& lo <= i < hi
            &&& occurs_at(clusters, query, i as int, hi)
            &&& no_match_in(clusters, query, i as int + 1, hi, hi)
        },
        None => no_match_in(clusters, query, lo, hi, hi),
    }
}

/// The first grapheme at or after `from` at which `query` occurs.
pub open spec fn first_match(
    clusters: Seq<Seq<char>>,
    query: Seq<Seq<char>>,
    from: int,
) -> Option<int>
    decreases clusters.len() - from,
{
    if from < 0 || from >= clusters.len() {
        None
    } else if occurs_at(clusters, query, from, clusters.len() as int) {
        Some(from)
    } else {
        first_match(clusters, query, from + 1)
    }
}

/// What `first_match` yields: a grapheme at which the query occurs, with no
/// occurrence between `from` and it; or nothing, where there is no occurrence
/// from `from` on.
pub proof fn lemma_first_match(clusters: Seq<Seq<char>>, query: Seq<Seq<char>>, from: int)
    requires
        0 <= from,
    ensures
        match first_match(clusters, query, from) {
            Some(m) => {
                &&& from <= m < clusters.len()
                &&& occurs_at(clusters, query, m, clusters.len() as int)
                &&& no_match_in(clusters, query, from, m, clusters.len() as int)
            },
            None => no_match_in(
                clusters,
                query,
                from,
                clusters.len() as int,
                clusters.len() as int,
            ),
        },
    decreases clusters.len() - from,
{
    if from < clusters.len() && !occurs_at(clusters, query, from, clusters.len() as int) {
        lemma_first_match(clusters, query, from + 1);
    }
}

/// The first occurrence in `from..` is what `first_match` yields.
pub proof fn lemma_first_in_is_first_match(
    clusters: Seq<Seq<char>>,
    query: Seq<Seq<char>>,
    from: int,
    found: Option<usize>,
)
    requires
        0 <= from,
        is_first_in(clusters, query, from, clusters.len() as int, found),
    ensures
        first_match(clusters, query, from) == match found {
            Some(i) => Some(i as int),
            None => None::<int>,
        },
{
    lemma_first_match(clusters, query, from);
    let n = clusters.len() as int;
    match first_match(clusters, query, from) {
        Some(m) => {
            match found {
                Some(i) => {
                    if m < i {
                        assert(!occurs_at(clusters, query, m, n));
                    } else if i < m {
                        assert(!occurs_at(clusters, query, i as int, n));
                    }
                },
                None => {
                    assert(!occurs_at(clusters, query, m, n));
                },
            }
        },
        None => {
            match found {
                Some(i) => {
                    assert(!occurs_at(clusters, query, i as int, n));
                },
                None => {},
            }
        },
    }
}

/// Whether `query` occurs at grapheme `i` of `parts`, looking no further
/// than grapheme `end`.
pub(crate) fn occurs(parts: &Vec<String>, query: &Vec<String>, i: usize, end: usize) -> (yes: bool)
    requires
        i <= end <= parts.len(),
    ensures
        yes == occurs_at(views(parts@), views(query@), i as int, end as int),
{
    if query.len() > end - i {
        return false;
    }
    let ghost clusters = views(parts@);
    let ghost wanted = views(query@);
    let mut k: usize = 0;
    while k < query.len()
        invariant
            i <= end <= parts.len(),
            query.len() <= end - i,
            k <= query.len(),
            clusters == views(parts@),
            wanted == views(query@),
            forall|j: int| 0 <= j < k ==> clusters[i + j] == wanted[j],
        decreases query.len() - k,
    {
        if parts[i + k] != query[k] {
            assert(clusters.subrange(i as int, i + wanted.len())[k as int] != wanted[k as int]);
            return false;
        }
        k += 1;
    }
    assert(clusters.subrange(i as int, i + wanted.len()) =~= wanted);
    true
}

/// The first grapheme in `from..end` at which `query` occurs.
pub(crate) fn scan_forward(parts: &Vec<String>, query: &Vec<String>, from: usize, end: usize) -> (found:
    Option<usize>)
    requires
        from <= end <= parts.len(),
    ensures
        is_first_in(views(parts@), views(query@), from as int, end as int, found),
{
    let mut i = from;
    while i < end
        invariant
            from <= i <= end <= parts.len(),
            no_match_in(views(parts@), views(query@), from as int, i as int, end as int),
        decreases end - i,
    {
        if occurs(parts, query, i, end) {
            return Some(i);
        }
        i += 1;
    }
    None
}

/// The last grapheme in `from..end` at which `query` occurs.
pub(crate) fn scan_backward(parts: &Vec<String>, query: &Vec<String>, from: usize, end: usize) -> (found:
    Option<usize>)
    requires
        from <= end <= parts.len(),
    ensures
        is_last_in(views(parts@), views(query@), from as int, end as int, found),
{
    let mut i = end;
    while i > from
        invariant
            from <= i <= end <= parts.len(),
            no_match_in(views(parts@), views(query@), i as int, end as int, end as int),
        decreases i - from,
    {
        i -= 1;
        if occurs(parts, query, i, end) {
            return Some(i);
        }
    }
    None
}

} // verus!
