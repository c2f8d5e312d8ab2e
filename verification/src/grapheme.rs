//! Grapheme clusters: the unit in which all text is addressed.
//!
//! A text is a sequence of characters; its grapheme clusters cut it into
//! consecutive, non-empty pieces. Everything else in this crate speaks of a
//! text through that cut.

use unicode_segmentation::UnicodeSegmentation;
use vstd::prelude::*;
use vstd::seq_lib::lemma_flatten_concat;

verus! {

/// The extended grapheme clusters of `text`, in order, as Unicode Standard
/// Annex #29 delimits them.
pub uninterp spec fn grapheme_clusters(text: Seq<char>) -> Seq<Seq<char>>;

/// `parts` cuts `text` into consecutive pieces, none of them empty.
pub open spec fn is_partition(text: Seq<char>, parts: Seq<Seq<char>>) -> bool {
    &&& parts.flatten() == text
    &&& forall|i: int| 0 <= i < parts.len() ==> (#[trigger] parts[i]).len() > 0
}

/// The character sequences of the strings in `parts`.
pub open spec fn views(parts: Seq<String>) -> Seq<Seq<char>> {
    parts.map_values(|s: String| s@)
}

/// The number of characters in the first `k` pieces of `parts`: the place in
/// the text where piece `k` begins.
pub open spec fn offset(parts: Seq<Seq<char>>, k: int) -> int {
    parts.take(k).flatten().len() as int
}

/// The text of the pieces `lo..hi` of `parts`.
pub open spec fn span(parts: Seq<Seq<char>>, lo: int, hi: int) -> Seq<char> {
    parts.subrange(lo, hi).flatten()
}

/// Calls `UnicodeSegmentation::graphemes` of the crate `unicode-segmentation`
/// with extended clusters switched on. The contract names the clusters it
/// yields and claims what its iterator shows: it hands out consecutive,
/// non-empty slices of `text` until `text` is used up.
#[verifier::external_body]
pub(crate) fn split_graphemes(text: &str) -> (parts: Vec<String>)
    ensures
        views(parts@) == grapheme_clusters(text@),
        is_partition(text@, views(parts@)),
{
    let mut parts = Vec::new();
    for piece in UnicodeSegmentation::graphemes(text, true) {
        parts.push(String::from(piece));
    }
    parts
}

/// A span grows by one piece at its end.
pub proof fn lemma_span_step(parts: Seq<Seq<char>>, lo: int, hi: int)
    requires
        0 <= lo <= hi < parts.len(),
    ensures
        span(parts, lo, hi + 1) == span(parts, lo, hi) + parts[hi],
{
    assert(parts.subrange(lo, hi + 1) =~= parts.subrange(lo, hi).push(parts[hi]));
    parts.subrange(lo, hi).lemma_flatten_push(parts[hi]);
}

/// Two adjoining spans make up the span that covers both.
pub proof fn lemma_span_join(parts: Seq<Seq<char>>, lo: int, mid: int, hi: int)
    requires
        0 <= lo <= mid <= hi <= parts.len(),
    ensures
        span(parts, lo, hi) == span(parts, lo, mid) + span(parts, mid, hi),
{
    assert(parts.subrange(lo, hi) =~= parts.subrange(lo, mid) + parts.subrange(mid, hi));
    lemma_flatten_concat(parts.subrange(lo, mid), parts.subrange(mid, hi));
}

/// The span of all pieces is the whole text; the empty span is empty.
pub proof fn lemma_span_ends(parts: Seq<Seq<char>>, k: int)
    requires
        0 <= k <= parts.len(),
    ensures
        span(parts, 0, parts.len() as int) == parts.flatten(),
        span(parts, k, k) == Seq::<char>::empty(),
        span(parts, 0, k) == parts.take(k).flatten(),
        span(parts, k, parts.len() as int) == parts.skip(k).flatten(),
{
    assert(parts.subrange(0, parts.len() as int) =~= parts);
    assert(parts.subrange(k, k) =~= Seq::<Seq<char>>::empty());
    assert(parts.subrange(0, k) =~= parts.take(k));
    assert(parts.subrange(k, parts.len() as int) =~= parts.skip(k));
}

/// Where the pieces begin: at zero, each after the one before it, the last
/// one ending where the text ends.
pub proof fn lemma_offset_step(parts: Seq<Seq<char>>, k: int)
    requires
        0 <= k < parts.len(),
    ensures
        offset(parts, 0) == 0,
        offset(parts, k + 1) == offset(parts, k) + parts[k].len(),
        offset(parts, parts.len() as int) == parts.flatten().len(),
{
    lemma_span_ends(parts, 0);
    lemma_span_ends(parts, k);
    lemma_span_ends(parts, k + 1);
    lemma_span_step(parts, 0, k);
}

/// With no piece empty, piece `k` begins at character `k` or later: a text has
/// at most as many pieces as characters.
pub proof fn lemma_offset_at_least_index(parts: Seq<Seq<char>>, k: int)
    requires
        0 <= k <= parts.len(),
        forall|i: int| 0 <= i < parts.len() ==> (#[trigger] parts[i]).len() > 0,
    ensures
        k <= offset(parts, k),
    decreases k,
{
    if k == 0 {
        lemma_span_ends(parts, 0);
    } else {
        lemma_offset_at_least_index(parts, k - 1);
        lemma_offset_step(parts, k - 1);
    }
}

/// A partition has at most as many pieces as the text has characters, and
/// no piece at all exactly when the text is empty.
pub proof fn lemma_partition_len(text: Seq<char>, parts: Seq<Seq<char>>)
    requires
        is_partition(text, parts),
    ensures
        parts.len() <= text.len(),
        parts.len() == 0 <==> text.len() == 0,
{
    let n = parts.len() as int;
    lemma_offset_at_least_index(parts, n);
    lemma_span_ends(parts, n);
    if n == 0 {
        assert(parts =~= Seq::<Seq<char>>::empty());
    }
}

/// Appends the pieces `from..to` of `parts` to `out`.
pub(crate) fn append_span(out: &mut String, parts: &Vec<String>, from: usize, to: usize)
    requires
        from <= to <= parts.len(),
    ensures
        final(out)@ == old(out)@ + span(views(parts@), from as int, to as int),
{
    let mut i = from;
    proof {
        lemma_span_ends(views(parts@), from as int);
    }
    while i < to
        invariant
            from <= i <= to <= parts.len(),
            out@ == old(out)@ + span(views(parts@), from as int, i as int),
        decreases to - i,
    {
        proof {
            lemma_span_step(views(parts@), from as int, i as int);
        }
        out.append(parts[i].as_str());
        i += 1;
    }
}

} // verus!
