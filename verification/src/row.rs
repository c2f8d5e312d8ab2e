//! One line of text, addressed by grapheme.

use crate::grapheme::{
    append_span, grapheme_clusters, is_partition, lemma_partition_len, lemma_span_ends,
    lemma_span_join, lemma_span_step, offset, span, split_graphemes, views,
};
use crate::highlight::{classify, tags_of, word_chars, Type};
use crate::position::SearchDirection;
use crate::search::{is_first_in, is_last_in, scan_backward, scan_forward};
use crate::terminal::{fg_escape, fg_reset_escape, foreground, foreground_reset};
use crate::text::push_char;
use vstd::prelude::*;
use vstd::utf8::encode_utf8;

verus! {

/// What a row is: its text, and the tags that the last classification gave
/// its graphemes. The tags are not kept up with the text: after an edit they
/// are those of the text before it, until the row is classified again.
#[verifier::ext_equal]
pub struct RowView {
    pub text: Seq<char>,
    pub tags: Seq<Type>,
}

impl RowView {
    /// The graphemes of the text.
    pub open spec fn graphemes(self) -> Seq<Seq<char>> {
        grapheme_clusters(self.text)
    }

    /// The number of graphemes.
    pub open spec fn len(self) -> nat {
        self.graphemes().len()
    }

    /// The graphemes cut the text into consecutive non-empty pieces. This
    /// holds of the view of every `Row`.
    pub open spec fn well_formed(self) -> bool {
        is_partition(self.text, self.graphemes())
    }

    /// The row with `c` put in before grapheme `at`.
    pub open spec fn inserted(self, at: int, c: char) -> RowView {
        RowView {
            text: span(self.graphemes(), 0, at) + seq![c] + span(
                self.graphemes(),
                at,
                self.len() as int,
            ),
            tags: self.tags,
        }
    }

    /// The row without grapheme `at`; the row itself where it has no such
    /// grapheme.
    pub open spec fn deleted(self, at: int) -> RowView {
        if 0 <= at < self.len() {
            RowView {
                text: span(self.graphemes(), 0, at) + span(
                    self.graphemes(),
                    at + 1,
                    self.len() as int,
                ),
                tags: self.tags,
            }
        } else {
            self
        }
    }

    /// The row with the text of `other` behind its own.
    pub open spec fn appended(self, other: RowView) -> RowView {
        RowView { text: self.text + other.text, tags: self.tags }
    }

    /// The row cut down to the graphemes before `at`.
    pub open spec fn head(self, at: int) -> RowView {
        RowView { text: span(self.graphemes(), 0, at), tags: self.tags }
    }

    /// A fresh row that holds the graphemes from `at` on.
    pub open spec fn tail(self, at: int) -> RowView {
        RowView { text: span(self.graphemes(), at, self.len() as int), tags: Seq::empty() }
    }

    /// The row with its graphemes classified anew.
    pub open spec fn highlighted(self, word: Option<Seq<char>>) -> RowView {
        RowView { text: self.text, tags: tags_of(self.graphemes(), word) }
    }

    /// `found` is what a search for `query` from grapheme `at` yields. The
    /// query occurs at a grapheme of the row where the graphemes from there
    /// on are the graphemes of the query, one for one. Forward, `found` is
    /// the first grapheme from `at` on at which the query occurs; backward,
    /// the last grapheme at which the query occurs and ends before grapheme
    /// `at`. It is nothing where the query does not occur in that range, nor
    /// where `at` lies beyond the end of the row. The empty query is found
    /// forward at `at` itself, where the row has a grapheme there, and is
    /// never found backward.
    pub open spec fn finds(
        self,
        query: Seq<char>,
        at: int,
        direction: SearchDirection,
        found: Option<usize>,
    ) -> bool {
        if at > self.len() {
            found is None
        } else if query.len() == 0 {
            found == if direction == SearchDirection::Forward && at < self.len() {
                Some(at as usize)
            } else {
                None
            }
        } else {
            match direction {
                SearchDirection::Forward => is_first_in(
                    self.graphemes(),
                    grapheme_clusters(query),
                    at,
                    self.len() as int,
                    found,
                ),
                SearchDirection::Backward => is_last_in(
                    self.graphemes(),
                    grapheme_clusters(query),
                    0,
                    at,
                    found,
                ),
            }
        }
    }

    /// The tag that grapheme `i` is drawn with: the one it was given when
    /// the row was last classified, and `Plain` where it was given none.
    pub open spec fn tag(self, i: int) -> Type {
        if 0 <= i < self.tags.len() {
            self.tags[i]
        } else {
            Type::Plain
        }
    }

    /// What grapheme `i` is shown as: one space for a tab, and otherwise
    /// the grapheme itself, whole.
    pub open spec fn cell(self, i: int) -> Seq<char> {
        if self.graphemes()[i] == seq!['\t'] {
            seq![' ']
        } else {
            self.graphemes()[i]
        }
    }

    /// The end of the range `start..end` once it is cut down to the row.
    pub open spec fn upper(self, end: int) -> int {
        if end <= self.len() {
            end
        } else {
            self.len() as int
        }
    }

    /// The start of the range `start..end` once it is cut down to the row.
    pub open spec fn lower(self, start: int, end: int) -> int {
        if start <= self.upper(end) {
            start
        } else {
            self.upper(end)
        }
    }

    /// What the graphemes `start..end` are shown as, one piece for each
    /// grapheme, the range cut down to the row.
    pub open spec fn cells(self, start: int, end: int) -> Seq<Seq<char>> {
        Seq::new(
            (self.upper(end) - self.lower(start, end)) as nat,
            |k: int| self.cell(self.lower(start, end) + k),
        )
    }

    /// The text that a rendering of the graphemes `start..end` shows: those
    /// graphemes one after the other, each tab as one space.
    pub open spec fn visible(self, start: int, end: int) -> Seq<char> {
        self.cells(start, end).flatten()
    }

    /// The marker that goes before grapheme `i` in a rendering that begins at
    /// grapheme `first`: the colour of its tag where that differs from the
    /// tag before it, the first grapheme being compared with `Plain`.
    pub open spec fn marker(self, first: int, i: int) -> Seq<char> {
        let before = if i == first {
            Type::Plain
        } else {
            self.tag(i - 1)
        };
        if self.tag(i) != before {
            fg_escape(self.tag(i).color())
        } else {
            Seq::empty()
        }
    }

    /// The first `count` graphemes of the range as they are shown, each
    /// behind its marker where `marked` is set, and without any marker where
    /// it is not.
    pub open spec fn drawn(self, start: int, end: int, count: int, marked: bool) -> Seq<char>
        decreases count,
    {
        if count <= 0 {
            Seq::empty()
        } else {
            self.drawn(start, end, count - 1, marked) + (if marked {
                self.marker(self.lower(start, end), self.lower(start, end) + count - 1)
            } else {
                Seq::empty()
            }) + self.cells(start, end)[count - 1]
        }
    }

    /// The markup for the graphemes `start..end`: the graphemes as they are
    /// shown, with their markers, and the marker that resets the colour at
    /// the end.
    pub open spec fn rendered(self, start: int, end: int) -> Seq<char> {
        self.drawn(start, end, self.cells(start, end).len() as int, true) + fg_reset_escape()
    }
}

/// A line of text. It is addressed by grapheme: index `i` is the `i`th
/// user-perceived character, whatever number of code points or bytes it takes.
pub struct Row {
    string: String,
    len: usize,
    highlight: Vec<Type>,
}

impl View for Row {
    type V = RowView;

    closed spec fn view(&self) -> RowView {
        RowView { text: self.string@, tags: self.highlight@ }
    }
}

impl Default for Row {
    /// An empty row.
    fn default() -> (row: Self)
        ensures
            row@ == (RowView { text: Seq::empty(), tags: Seq::empty() }),
            row@.len() == 0,
    {
        let string = String::new();
        let parts = split_graphemes(string.as_str());
        proof {
            lemma_partition_len(string@, views(parts@));
        }
        Row { string, len: parts.len(), highlight: Vec::new() }
    }
}

impl Row {
    /// The cached length is the number of graphemes of the text, and the
    /// graphemes cut the text into non-empty pieces.
    #[verifier::type_invariant]
    pub closed spec fn inv(&self) -> bool {
        &&& self.len == self@.len()
        &&& self@.well_formed()
    }

    /// A row that holds `slice`, not yet classified.
    pub fn from(slice: &str) -> (row: Self)
        ensures
            row@ == (RowView { text: slice@, tags: Seq::empty() }),
            row@.well_formed(),
    {
        let parts = split_graphemes(slice);
        Row { string: String::from_str(slice), len: parts.len(), highlight: Vec::new() }
    }

    /// Replaces the text and counts its graphemes anew.
    fn set_text(&mut self, text: String)
        ensures
            final(self)@.text == text@,
            final(self)@.tags == old(self)@.tags,
    {
        proof {
            use_type_invariant(&*self);
        }
        let parts = split_graphemes(text.as_str());
        let mut highlight: Vec<Type> = Vec::new();
        std::mem::swap(&mut highlight, &mut self.highlight);
        *self = Row { string: text, len: parts.len(), highlight };
    }

    /// The number of graphemes.
    pub fn len(&self) -> (n: usize)
        ensures
            n == self@.len(),
            self@.well_formed(),
    {
        proof {
            use_type_invariant(self);
        }
        self.len
    }

    pub fn is_empty(&self) -> (empty: bool)
        ensures
            empty == (self@.len() == 0),
            empty == (self@.text.len() == 0),
    {
        proof {
            use_type_invariant(self);
            lemma_partition_len(self@.text, self@.graphemes());
        }
        self.len == 0
    }

    /// The text in UTF-8.
    pub fn as_bytes(&self) -> (bytes: &[u8])
        ensures
            bytes@ == encode_utf8(self@.text),
    {
        self.string.as_str().as_bytes()
    }

    /// Puts the text of the row behind what `out` holds.
    pub(crate) fn append_to(&self, out: &mut String)
        ensures
            final(out)@ == old(out)@ + self@.text,
    {
        out.append(self.string.as_str());
    }

    /// Puts `c` in before grapheme `at`; with `at` the length of the row, at
    /// its end.
    pub fn insert(&mut self, at: usize, c: char)
        requires
            at <= old(self)@.len(),
        ensures
            final(self)@ == old(self)@.inserted(at as int, c),
    {
        proof {
            use_type_invariant(&*self);
        }
        let parts = split_graphemes(self.string.as_str());
        let mut result = String::new();
        append_span(&mut result, &parts, 0, at);
        push_char(&mut result, c);
        append_span(&mut result, &parts, at, parts.len());
        self.set_text(result);
    }

    /// Takes out grapheme `at`, and does nothing where there is none.
    pub fn delete(&mut self, at: usize)
        ensures
            final(self)@ == old(self)@.deleted(at as int),
    {
        proof {
            use_type_invariant(&*self);
        }
        if at >= self.len {
            return ;
        }
        let parts = split_graphemes(self.string.as_str());
        let mut result = String::new();
        append_span(&mut result, &parts, 0, at);
        append_span(&mut result, &parts, at + 1, parts.len());
        self.set_text(result);
    }

    /// Puts the text of `new` behind the text of this row.
    pub fn append(&mut self, new: &Self)
        ensures
            final(self)@ == old(self)@.appended(new@),
    {
        let mut result = self.string.clone();
        result.append(new.string.as_str());
        self.set_text(result);
    }

    /// Cuts the row before grapheme `at`: it keeps the graphemes before
    /// `at` and hands back a fresh row with the others.
    pub fn split(&mut self, at: usize) -> (rest: Self)
        requires
            at <= old(self)@.len(),
        ensures
            final(self)@ == old(self)@.head(at as int),
            rest@ == old(self)@.tail(at as int),
    {
        proof {
            use_type_invariant(&*self);
        }
        let parts = split_graphemes(self.string.as_str());
        let mut row = String::new();
        append_span(&mut row, &parts, 0, at);
        let mut split_row = String::new();
        append_span(&mut split_row, &parts, at, parts.len());
        self.set_text(row);
        Row::from(split_row.as_str())
    }

    /// Looks for the graphemes of `query` among the graphemes of the row:
    /// if it yields a grapheme, the query occurs there, and it is the first
    /// such grapheme from `at` on, or the last before `at`; if it yields
    /// none, the query does not occur in the range searched. The empty
    /// query is found forward at `at`, where there is a grapheme, and not
    /// at all backward.
    pub fn find(&self, query: &str, at: usize, direction: SearchDirection) -> (found: Option<usize>)
        ensures
            self@.finds(query@, at as int, direction, found),
    {
        proof {
            use_type_invariant(self);
        }
        if at > self.len {
            return None;
        }
        let parts = split_graphemes(self.string.as_str());
        let pattern = split_graphemes(query);
        proof {
            lemma_partition_len(query@, views(pattern@));
        }
        if pattern.len() == 0 {
            return match direction {
                SearchDirection::Forward => if at < self.len {
                    Some(at)
                } else {
                    None
                },
                SearchDirection::Backward => None,
            };
        }
        match direction {
            SearchDirection::Forward => scan_forward(&parts, &pattern, at, self.len),
            SearchDirection::Backward => scan_backward(&parts, &pattern, 0, at),
        }
    }

    /// Classifies the graphemes of the row anew, with `word` as the active
    /// search word.
    pub fn highlight(&mut self, word: Option<&str>)
        ensures
            final(self)@ == old(self)@.highlighted(word_chars(word)),
    {
        proof {
            use_type_invariant(&*self);
        }
        let tags = classify(self.string.as_str(), word);
        self.highlight = tags;
    }

    /// The markup that shows the graphemes `start..end`, the range cut down
    /// to the row. Every grapheme of the range is shown whole, a tab as one
    /// space. A grapheme whose tag differs from that of the grapheme shown
    /// before it is preceded by the marker of its colour, and the marker that
    /// resets the colour stands at the end. No more graphemes are shown than
    /// the range is long.
    pub fn render(&self, start: usize, end: usize) -> (out: String)
        ensures
            out@ == self@.rendered(start as int, end as int),
            start <= end ==> self@.cells(start as int, end as int).len() <= end - start,
            start > end ==> self@.cells(start as int, end as int).len() == 0,
    {
        proof {
            use_type_invariant(self);
        }
        let parts = split_graphemes(self.string.as_str());
        let last = if end <= self.len {
            end
        } else {
            self.len
        };
        let first = if start <= last {
            start
        } else {
            last
        };
        let mut out = String::new();
        let mut current = Type::Plain;
        let mut index = first;
        while index < last
            invariant
                first <= index <= last <= parts.len(),
                views(parts@) == self@.graphemes(),
                first == self@.lower(start as int, end as int),
                last == self@.upper(end as int),
                current == (if index == first {
                    Type::Plain
                } else {
                    self@.tag(index - 1)
                }),
                out@ == self@.drawn(start as int, end as int, index - first, true),
            decreases last - index,
        {
            let tag = if index < self.highlight.len() {
                self.highlight[index]
            } else {
                Type::Plain
            };
            let ghost before = out@;
            if tag != current {
                current = tag;
                let marker = foreground(tag.to_color());
                out.append(marker.as_str());
            } else {
                assert(out@ =~= before + Seq::<char>::empty());
            }
            let piece = parts[index].as_str();
            if piece.unicode_len() == 1 && piece.get_char(0) == '\t' {
                assert(piece@ =~= seq!['\t']);
                let ghost marked = out@;
                push_char(&mut out, ' ');
                assert(out@ =~= marked + seq![' ']);
            } else {
                out.append(piece);
            }
            index += 1;
        }
        let reset = foreground_reset();
        out.append(reset.as_str());
        out
    }
}

/// Inserting a character and then deleting the grapheme at the same index
/// gives the row back, text and tags alike, wherever the character is that
/// grapheme of the new row: wherever grapheme `at` of the new row begins
/// where the character was put in and consists of it alone. (A combining mark
/// put behind a letter joins that letter's grapheme instead, and the
/// deletion then finds another grapheme at the index, or none.)
pub proof fn insert_then_delete_restores(row: RowView, at: int, c: char)
    requires
        row.well_formed(),
        row.inserted(at, c).well_formed(),
        0 <= at <= row.len(),
        at < row.inserted(at, c).len(),
        row.inserted(at, c).graphemes()[at] == seq![c],
        offset(row.inserted(at, c).graphemes(), at) == offset(row.graphemes(), at),
    ensures
        row.inserted(at, c).deleted(at) == row,
{
    let g = row.graphemes();
    let n = row.len() as int;
    let wider = row.inserted(at, c);
    let h = wider.graphemes();
    let m = wider.len() as int;
    lemma_span_ends(g, at);
    lemma_span_join(g, 0, at, n);
    lemma_span_ends(h, at);
    lemma_span_join(h, 0, at, m);
    lemma_span_join(h, at, at + 1, m);
    lemma_span_ends(h, at + 1);
    lemma_span_step(h, at, at);
    assert(span(h, at, at + 1) == seq![c]);
    assert(wider.text == span(h, 0, at) + seq![c] + span(h, at + 1, m));
    assert(span(h, 0, at) =~= wider.text.subrange(0, offset(h, at)));
    assert(span(g, 0, at) =~= wider.text.subrange(0, offset(g, at)));
    let k = offset(g, at) + 1;
    assert(span(h, at + 1, m) =~= wider.text.subrange(k, wider.text.len() as int));
    assert(span(g, at, n) =~= wider.text.subrange(k, wider.text.len() as int));
}

/// Cutting a row in two and appending the second part to the first gives the
/// row back: the same text, hence the same graphemes and the same length,
/// and the same tags.
pub proof fn split_then_append_restores(row: RowView, at: int)
    requires
        row.well_formed(),
        0 <= at <= row.len(),
    ensures
        row.head(at).appended(row.tail(at)) == row,
        row.head(at).appended(row.tail(at)).len() == row.len(),
{
    let g = row.graphemes();
    lemma_span_join(g, 0, at, row.len() as int);
    lemma_span_ends(g, at);
}

/// A rendering shows at most `end - start` graphemes of the row: one piece
/// for each grapheme of the range that the row has, in order, and nothing
/// where the range is empty or begins behind the row.
pub proof fn render_shows_at_most_range(row: RowView, start: int, end: int)
    requires
        0 <= start,
        0 <= end,
    ensures
        start <= end ==> row.cells(start, end).len() <= end - start,
        start >= end || start >= row.len() ==> row.cells(start, end).len() == 0
            && row.visible(start, end).len() == 0,
        forall|k: int|
            0 <= k < row.cells(start, end).len() ==> start + k < end && start + k < row.len()
                && #[trigger] row.cells(start, end)[k] == row.cell(start + k),
{
    if start >= end || start >= row.len() {
        assert(row.cells(start, end) =~= Seq::<Seq<char>>::empty());
    }
}

/// What a rendering shows between its markers is the text of the graphemes
/// of its range, each tab as one space: with the markers left out, what is
/// drawn is that text and nothing else.
pub proof fn render_without_markers(row: RowView, start: int, end: int)
    ensures
        row.drawn(start, end, row.cells(start, end).len() as int, false) == row.visible(start, end),
{
    let cells = row.cells(start, end);
    lemma_drawn_plain(row, start, end, cells.len() as int);
    assert(cells.take(cells.len() as int) =~= cells);
}

/// Without markers, the first `count` graphemes drawn are their pieces one
/// after the other.
proof fn lemma_drawn_plain(row: RowView, start: int, end: int, count: int)
    requires
        0 <= count <= row.cells(start, end).len(),
    ensures
        row.drawn(start, end, count, false) == row.cells(start, end).take(count).flatten(),
    decreases count,
{
    let cells = row.cells(start, end);
    if count == 0 {
        assert(cells.take(0) =~= Seq::<Seq<char>>::empty());
    } else {
        lemma_drawn_plain(row, start, end, count - 1);
        assert(cells.take(count) =~= cells.take(count - 1).push(cells[count - 1]));
        cells.take(count - 1).lemma_flatten_push(cells[count - 1]);
        assert(row.drawn(start, end, count, false) =~= row.drawn(start, end, count - 1, false)
            + cells[count - 1]);
    }
}

/// Rendering changes nothing and depends on nothing but the row and the
/// range: two renderings of one row over one range are the same markup.
pub proof fn render_is_repeatable(
    row: RowView,
    start: int,
    end: int,
    first: Seq<char>,
    second: Seq<char>,
)
    requires
        first == row.rendered(start, end),
        second == row.rendered(start, end),
    ensures
        first == second,
{
}

} // verus!
