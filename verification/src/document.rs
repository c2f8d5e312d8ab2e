//! The buffer: an ordered sequence of rows, the file it belongs to, and
//! whether it holds changes that the file does not.

use crate::grapheme::{lemma_span_ends, lemma_span_join, lemma_span_step};
use crate::highlight::Type;
use crate::position::{Position, SearchDirection};
use crate::row::{Row, RowView};
use crate::text::push_char;
use vstd::prelude::*;

verus! {

/// Why a document could not be loaded or saved.
#[derive(Clone, Copy, Debug, PartialEq, Eq, Structural)]
pub enum IoError {
    /// The file could not be read.
    Unreadable,
    /// The file could not be created or written.
    Unwritable,
    /// The document belongs to no file.
    NoFileName,
}

/// What a document is: its rows in order, the name of its file if it has
/// one, and whether it was changed since it was loaded or saved.
#[verifier::ext_equal]
pub struct DocumentView {
    pub rows: Seq<RowView>,
    pub file_name: Option<Seq<char>>,
    pub dirty: bool,
}

/// A row as it comes from a file: its text, not yet classified.
pub open spec fn fresh_row(text: Seq<char>) -> RowView {
    RowView { text, tags: Seq::empty() }
}

/// The place of the first line feed in `text` at or after `from`; the
/// length of `text` where there is none.
pub open spec fn line_end(text: Seq<char>, from: int) -> int
    decreases text.len() - from,
{
    if from < 0 || from >= text.len() {
        text.len() as int
    } else if text[from] == '\n' {
        from
    } else {
        line_end(text, from + 1)
    }
}

/// A line without the carriage return that stood before its line feed.
pub open spec fn without_carriage_return(line: Seq<char>) -> Seq<char> {
    if line.len() > 0 && line.last() == '\r' {
        line.drop_last()
    } else {
        line
    }
}

/// The lines of `text`. A line ends with a line feed, or with a carriage
/// return and a line feed; neither belongs to the line. What follows the last
/// line feed is a line too, unless nothing follows it.
pub open spec fn lines(text: Seq<char>) -> Seq<Seq<char>>
    decreases text.len(),
{
    if text.len() == 0 {
        Seq::empty()
    } else {
        let end = line_end(text, 0);
        if 0 <= end < text.len() {
            seq![without_carriage_return(text.subrange(0, end))] + lines(
                text.subrange(end + 1, text.len() as int),
            )
        } else {
            seq![text]
        }
    }
}

/// The document that a file named `file_name` with the text `text` holds: a
/// row for every line, and no changes.
pub open spec fn loaded(file_name: Seq<char>, text: Seq<char>) -> DocumentView {
    DocumentView {
        rows: lines(text).map_values(|line: Seq<char>| fresh_row(line)),
        file_name: Some(file_name),
        dirty: false,
    }
}

/// The text of a file that holds `rows`: every row followed by a line feed.
pub open spec fn file_text(rows: Seq<RowView>) -> Seq<char> {
    rows.map_values(|row: RowView| row.text.push('\n')).flatten()
}

impl DocumentView {
    /// The column at which the search of row `row` begins, for a search
    /// that starts at `at`: the column of `at` in its own row, and in any
    /// other row the end from which the search sets out.
    pub open spec fn search_column(self, at: Position, direction: SearchDirection, row: int) -> int {
        if row == at.row {
            at.column as int
        } else {
            match direction {
                SearchDirection::Forward => 0,
                SearchDirection::Backward => self.rows[row].len() as int,
            }
        }
    }

    /// The search of row `row` yields `found`.
    pub open spec fn row_finds(
        self,
        query: Seq<char>,
        at: Position,
        direction: SearchDirection,
        row: int,
        found: Option<usize>,
    ) -> bool {
        self.rows[row].finds(query, self.search_column(at, direction, row), direction, found)
    }

    /// `found` is what a search for `query` from `at` yields. Forward, the
    /// search goes through the row of `at` from its column on and then
    /// through the rows below, each from its beginning; backward, through
    /// the row of `at` before its column and then through the rows above,
    /// each from its end. `found` is the first place it comes upon, and
    /// nothing where it comes upon none or `at` names no row.
    pub open spec fn finds(
        self,
        query: Seq<char>,
        at: Position,
        direction: SearchDirection,
        found: Option<Position>,
    ) -> bool {
        match found {
            Some(place) => {
                &&& at.row < self.rows.len()
                &&& place.row < self.rows.len()
                &&& self.row_finds(query, at, direction, place.row as int, Some(place.column))
                &&& match direction {
                    SearchDirection::Forward => {
                        &&& at.row <= place.row
                        &&& forall|r: int|
                            at.row <= r < place.row ==> self.row_finds(
                                query,
                                at,
                                direction,
                                r,
                                None,
                            )
                    },
                    SearchDirection::Backward => {
                        &&& place.row <= at.row
                        &&& forall|r: int|
                            place.row < r <= at.row ==> self.row_finds(
                                query,
                                at,
                                direction,
                                r,
                                None,
                            )
                    },
                }
            },
            None => {
                ||| at.row >= self.rows.len()
                ||| match direction {
                    SearchDirection::Forward => forall|r: int|
                        at.row <= r < self.rows.len() ==> self.row_finds(
                            query,
                            at,
                            direction,
                            r,
                            None,
                        ),
                    SearchDirection::Backward => forall|r: int|
                        0 <= r <= at.row ==> self.row_finds(query, at, direction, r, None),
                }
            },
        }
    }

    /// Every row is cut into non-empty pieces by its graphemes. This holds
    /// of the view of every `Document`.
    pub open spec fn well_formed(self) -> bool {
        forall|i: int| 0 <= i < self.rows.len() ==> (#[trigger] self.rows[i]).well_formed()
    }

    /// Whether `at` names a row and a place within it or at its end.
    pub open spec fn holds(self, at: Position) -> bool {
        at.row < self.rows.len() && at.column <= self.rows[at.row as int].len()
    }

    /// The document with the row of `at` cut in two at its column, the second
    /// part a row of its own below the first. Where `at` names no row, or no
    /// place within its row, the document itself.
    pub open spec fn with_line_break(self, at: Position) -> DocumentView {
        if self.holds(at) {
            let row = self.rows[at.row as int];
            DocumentView {
                rows: self.rows.update(at.row as int, row.head(at.column as int)).insert(
                    at.row + 1,
                    row.tail(at.column as int),
                ),
                ..self
            }
        } else {
            self
        }
    }

    /// The document after `c` was typed at `at`. A line feed breaks the line;
    /// any other character goes into the row of `at`, or, one row past the
    /// end, into a row of its own. Whatever changes the rows marks the
    /// document as changed; a position out of range changes nothing.
    pub open spec fn inserted(self, at: Position, c: char) -> DocumentView {
        if c == '\n' {
            if self.holds(at) {
                DocumentView { dirty: true, ..self.with_line_break(at) }
            } else {
                self
            }
        } else if at.row == self.rows.len() {
            DocumentView { rows: self.rows.push(fresh_row(seq![c])), dirty: true, ..self }
        } else if self.holds(at) {
            DocumentView {
                rows: self.rows.update(
                    at.row as int,
                    self.rows[at.row as int].inserted(at.column as int, c),
                ),
                dirty: true,
                ..self
            }
        } else {
            self
        }
    }

    /// The document after the deletion at `at`. At the end of a row that has
    /// a row below it, the two rows become one; within a row, the grapheme
    /// at `at` goes. Either marks the document as changed; anywhere else
    /// nothing changes.
    pub open spec fn deleted(self, at: Position) -> DocumentView {
        if at.row >= self.rows.len() {
            self
        } else if at.column == self.rows[at.row as int].len() && at.row + 1 < self.rows.len() {
            DocumentView {
                rows: self.rows.update(
                    at.row as int,
                    self.rows[at.row as int].appended(self.rows[at.row + 1]),
                ).remove(at.row + 1),
                dirty: true,
                ..self
            }
        } else if at.column < self.rows[at.row as int].len() {
            DocumentView {
                rows: self.rows.update(
                    at.row as int,
                    self.rows[at.row as int].deleted(at.column as int),
                ),
                dirty: true,
                ..self
            }
        } else {
            self
        }
    }
}

/// The text buffer.
pub struct Document {
    rows: Vec<Row>,
    file_name: Option<String>,
    dirty: bool,
}

impl View for Document {
    type V = DocumentView;

    closed spec fn view(&self) -> DocumentView {
        DocumentView {
            rows: self.rows@.map_values(|row: Row| row@),
            file_name: match self.file_name {
                Some(name) => Some(name@),
                None => None,
            },
            dirty: self.dirty,
        }
    }
}

impl Default for Document {
    /// An empty document that belongs to no file.
    fn default() -> (document: Self)
        ensures
            document@ == (DocumentView { rows: Seq::empty(), file_name: None, dirty: false }),
    {
        Document { rows: Vec::new(), file_name: None, dirty: false }
    }
}

/// Nothing but the line itself lies before the first line feed.
proof fn lemma_line_end(text: Seq<char>, from: int, end: int)
    requires
        0 <= from <= end <= text.len(),
        forall|k: int| from <= k < end ==> text[k] != '\n',
        end < text.len() ==> text[end] == '\n',
    ensures
        line_end(text, from) == end,
    decreases end - from,
{
    if from < end {
        lemma_line_end(text, from + 1, end);
    }
}

/// A row can be written to a file and read back: it holds no line feed, and
/// no carriage return at its end.
pub open spec fn is_line(text: Seq<char>) -> bool {
    &&& forall|k: int| 0 <= k < text.len() ==> text[k] != '\n'
    &&& text.len() > 0 ==> text.last() != '\r'
}

/// Typing marks the document as changed exactly when it changes the rows:
/// where it changes none, it changes nothing at all. The file name stays.
pub proof fn insert_marks_changes(document: DocumentView, at: Position, c: char)
    requires
        document.well_formed(),
    ensures
        document.inserted(at, c).rows != document.rows ==> document.inserted(at, c).dirty,
        document.inserted(at, c).rows == document.rows ==> document.inserted(at, c) == document,
        document.inserted(at, c).file_name == document.file_name,
{
    if c != '\n' && at.row < document.rows.len() && document.holds(at) {
        let row = document.rows[at.row as int];
        let g = row.graphemes();
        lemma_span_join(g, 0, at.column as int, row.len() as int);
        lemma_span_ends(g, at.column as int);
        assert(row.inserted(at.column as int, c).text.len() == row.text.len() + 1);
        assert(document.inserted(at, c).rows[at.row as int] != row);
    }
}

/// Deleting marks the document as changed exactly when it changes the rows:
/// where it changes none, it changes nothing at all. The file name stays.
pub proof fn delete_marks_changes(document: DocumentView, at: Position)
    requires
        document.well_formed(),
    ensures
        document.deleted(at).rows != document.rows ==> document.deleted(at).dirty,
        document.deleted(at).rows == document.rows ==> document.deleted(at) == document,
        document.deleted(at).file_name == document.file_name,
{
    if at.row < document.rows.len() {
        let row = document.rows[at.row as int];
        if !(at.column == row.len() && at.row + 1 < document.rows.len()) && at.column < row.len() {
            let g = row.graphemes();
            let n = row.len() as int;
            let k = at.column as int;
            lemma_span_join(g, 0, k, n);
            lemma_span_join(g, k, k + 1, n);
            lemma_span_step(g, k, k);
            lemma_span_ends(g, k);
            assert(g[k].len() > 0);
            assert(row.deleted(k).text.len() + g[k].len() == row.text.len());
            assert(document.deleted(at).rows[at.row as int] != row);
        }
    }
}

/// What is written to a file is read back as the same rows, one for each,
/// provided each row can stand in a file as a line: the final line feed makes
/// no row of its own.
pub proof fn contents_load_back(rows: Seq<RowView>)
    requires
        forall|i: int| 0 <= i < rows.len() ==> is_line(#[trigger] rows[i].text),
    ensures
        lines(file_text(rows)) == rows.map_values(|row: RowView| row.text),
    decreases rows.len(),
{
    let pieces = rows.map_values(|row: RowView| row.text.push('\n'));
    let texts = rows.map_values(|row: RowView| row.text);
    if rows.len() == 0 {
        assert(lines(file_text(rows)) =~= texts);
    } else {
        let first = rows[0].text;
        let rest = rows.drop_first();
        let whole = file_text(rows);
        assert(pieces.drop_first() =~= rest.map_values(|row: RowView| row.text.push('\n')));
        assert(whole == first.push('\n') + file_text(rest));
        assert forall|i: int| 0 <= i < rest.len() implies is_line(#[trigger] rest[i].text) by {
            assert(rest[i] == rows[i + 1]);
        }
        contents_load_back(rest);
        assert(is_line(first));
        lemma_line_end(whole, 0, first.len() as int);
        assert(whole.subrange(0, first.len() as int) =~= first);
        assert(whole.subrange(first.len() as int + 1, whole.len() as int) =~= file_text(rest));
        assert(texts =~= seq![first] + rest.map_values(|row: RowView| row.text));
    }
}

impl Document {
    /// The document that a file holds. `contents` is what reading the file
    /// named `file_name` gave: its text, or the reason why it could not be
    /// read, in which case there is no document.
    pub fn open(file_name: &str, contents: Result<String, IoError>) -> (opened: Result<
        Self,
        IoError,
    >)
        ensures
            match contents {
                Ok(text) => opened matches Ok(document) && document@ == loaded(
                    file_name@,
                    text@,
                ),
                Err(reason) => opened == Err::<Self, IoError>(reason),
            },
    {
        let text = match contents {
            Ok(text) => text,
            Err(reason) => {
                return Err(reason);
            },
        };
        let ghost whole = text@;
        let mut rows: Vec<Row> = Vec::new();
        let mut line = String::new();
        let mut carriage_return = false;
        let ghost mut begin: int = 0;
        proof {
            assert(whole.subrange(0, whole.len() as int) =~= whole);
            assert(rows@.map_values(|row: Row| row@.text) + lines(whole) =~= lines(whole));
            assert(whole.subrange(0, 0) =~= line@);
        }
        for c in it: text.as_str().chars()
            invariant
                it.seq() == whole,
                0 <= begin <= it.index() <= whole.len(),
                forall|k: int| begin <= k < it.index() ==> whole[k] != '\n',
                lines(whole) == rows@.map_values(|row: Row| row@.text) + lines(
                    whole.subrange(begin, whole.len() as int),
                ),
                forall|k: int| 0 <= k < rows.len() ==> (#[trigger] rows[k])@.tags.len() == 0,
                whole.subrange(begin, it.index() as int) == if carriage_return {
                    line@.push('\r')
                } else {
                    line@
                },
                !carriage_return ==> line@.len() == 0 || line@.last() != '\r',
        {
            let ghost at = it.index() as int;
            if c == '\n' {
                proof {
                    let rest = whole.subrange(begin, whole.len() as int);
                    lemma_line_end(rest, 0, at - begin);
                    assert(rest.subrange(0, at - begin) =~= whole.subrange(begin, at));
                    assert(rest.subrange(at - begin + 1, rest.len() as int) =~= whole.subrange(
                        at + 1,
                        whole.len() as int,
                    ));
                    assert(line@ =~= without_carriage_return(whole.subrange(begin, at)));
                }
                let ghost before = rows@.map_values(|row: Row| row@.text);
                rows.push(Row::from(line.as_str()));
                assert(rows@.map_values(|row: Row| row@.text) =~= before + seq![line@]);
                line = String::new();
                carriage_return = false;
                proof {
                    begin = at + 1;
                    assert(whole.subrange(begin, at + 1) =~= line@);
                }
            } else {
                if carriage_return {
                    push_char(&mut line, '\r');
                }
                if c == '\r' {
                    carriage_return = true;
                } else {
                    carriage_return = false;
                    push_char(&mut line, c);
                }
                assert(whole.subrange(begin, at + 1) =~= whole.subrange(begin, at).push(c));
            }
        }
        if carriage_return {
            push_char(&mut line, '\r');
        }
        let ghost rest = whole.subrange(begin, whole.len() as int);
        assert(line@ =~= rest);
        if !line.as_str().is_empty() {
            proof {
                lemma_line_end(rest, 0, rest.len() as int);
            }
            let ghost before = rows@.map_values(|row: Row| row@.text);
            rows.push(Row::from(line.as_str()));
            assert(rows@.map_values(|row: Row| row@.text) =~= before + seq![line@]);
        }
        let ghost texts = rows@.map_values(|row: Row| row@.text);
        assert(lines(whole) =~= texts);
        let document = Document { rows, file_name: Some(String::from_str(file_name)), dirty: false };
        assert forall|k: int| 0 <= k < document@.rows.len() implies #[trigger] document@.rows[k]
            == fresh_row(lines(whole)[k]) by {
            assert(document.rows@[k]@.text == texts[k]);
            assert(document.rows@[k]@.tags =~= Seq::<Type>::empty());
        }
        assert(document@.rows =~= lines(whole).map_values(|line: Seq<char>| fresh_row(line)));
        Ok(document)
    }

    /// The row at `index`, if there is one.
    pub fn row(&self, index: usize) -> (row: Option<&Row>)
        ensures
            match row {
                Some(row) => index < self@.rows.len() && row@ == self@.rows[index as int],
                None => index >= self@.rows.len(),
            },
    {
        if index < self.rows.len() {
            Some(&self.rows[index])
        } else {
            None
        }
    }

    pub fn is_empty(&self) -> (empty: bool)
        ensures
            empty == (self@.rows.len() == 0),
    {
        self.rows.len() == 0
    }

    /// The number of rows.
    pub fn len(&self) -> (n: usize)
        ensures
            n == self@.rows.len(),
    {
        self.rows.len()
    }

    /// Breaks the line at `at`: the row keeps what stands before the column
    /// and a new row below it takes the rest. Nothing happens where `at`
    /// names no row or no place within its row. Whether the document counts
    /// as changed is left as it was.
    pub fn insert_newline(&mut self, at: &Position)
        ensures
            final(self)@ == old(self)@.with_line_break(*at),
    {
        if at.row >= self.rows.len() {
            return ;
        }
        if at.column > self.rows[at.row].len() {
            return ;
        }
        let new_row = self.rows[at.row].split(at.column);
        self.rows.insert(at.row + 1, new_row);
        assert(self@.rows =~= old(self)@.with_line_break(*at).rows);
    }

    /// Types `c` at `at`.
    pub fn insert(&mut self, at: &Position, c: char)
        ensures
            final(self)@ == old(self)@.inserted(*at, c),
    {
        if at.row > self.rows.len() {
            return ;
        }
        if c == '\n' {
            if at.row < self.rows.len() && at.column <= self.rows[at.row].len() {
                self.insert_newline(at);
                self.dirty = true;
            }
            return ;
        }
        if at.row == self.rows.len() {
            let mut row = Row::default();
            proof {
                lemma_span_ends(row@.graphemes(), 0);
            }
            row.insert(0, c);
            assert(row@ == fresh_row(seq![c]));
            self.rows.push(row);
            self.dirty = true;
            assert(self@.rows =~= old(self)@.inserted(*at, c).rows);
        } else if at.column <= self.rows[at.row].len() {
            self.rows[at.row].insert(at.column, c);
            self.dirty = true;
            assert(self@.rows =~= old(self)@.inserted(*at, c).rows);
        }
    }

    /// Deletes at `at`: the grapheme there, or, at the end of a row, the
    /// break between that row and the next.
    pub fn delete(&mut self, at: &Position)
        ensures
            final(self)@ == old(self)@.deleted(*at),
    {
        let len = self.rows.len();
        if at.row >= len {
            return ;
        }
        let width = self.rows[at.row].len();
        if at.column == width && at.row + 1 < len {
            let next_row = self.rows.remove(at.row + 1);
            self.rows[at.row].append(&next_row);
            self.dirty = true;
            assert(self@.rows =~= old(self)@.deleted(*at).rows);
        } else if at.column < width {
            self.rows[at.row].delete(at.column);
            self.dirty = true;
            assert(self@.rows =~= old(self)@.deleted(*at).rows);
        }
    }

    /// The text to write to the document's file: every row followed by a line
    /// feed, in order.
    pub fn contents(&self) -> (text: String)
        ensures
            text@ == file_text(self@.rows),
    {
        let ghost pieces = self@.rows.map_values(|row: RowView| row.text.push('\n'));
        let mut text = String::new();
        let mut i: usize = 0;
        assert(pieces.take(0) =~= Seq::<Seq<char>>::empty());
        while i < self.rows.len()
            invariant
                i <= self.rows.len(),
                pieces == self@.rows.map_values(|row: RowView| row.text.push('\n')),
                text@ == pieces.take(i as int).flatten(),
            decreases self.rows.len() - i,
        {
            proof {
                assert(pieces.take(i + 1) =~= pieces.take(i as int).push(pieces[i as int]));
                pieces.take(i as int).lemma_flatten_push(pieces[i as int]);
            }
            self.rows[i].append_to(&mut text);
            push_char(&mut text, '\n');
            i += 1;
        }
        assert(pieces.take(i as int) =~= pieces);
        text
    }

    /// Concludes a save. `written` is what writing `contents()` to the file
    /// of the document gave. A document that belongs to no file cannot be
    /// saved, whatever `written` says; otherwise a failure to write is handed
    /// on and leaves the document as it was, and a success marks it as
    /// unchanged.
    pub fn save(&mut self, written: Result<(), IoError>) -> (saved: Result<(), IoError>)
        ensures
            saved == match old(self)@.file_name {
                None => Err::<(), IoError>(IoError::NoFileName),
                Some(_) => written,
            },
            final(self)@ == if saved is Ok {
                DocumentView { dirty: false, ..old(self)@ }
            } else {
                old(self)@
            },
    {
        if self.file_name.is_none() {
            return Err(IoError::NoFileName);
        }
        if written.is_ok() {
            self.dirty = false;
        }
        written
    }

    /// The name of the file that the document belongs to.
    pub fn file_name(&self) -> (name: Option<&str>)
        ensures
            self@.file_name == match name {
                Some(name) => Some(name@),
                None => None,
            },
    {
        match &self.file_name {
            Some(name) => Some(name.as_str()),
            None => None,
        }
    }

    /// Gives the document a file to belong to.
    pub fn set_file_name(&mut self, name: String)
        ensures
            final(self)@ == (DocumentView { file_name: Some(name@), ..old(self)@ }),
    {
        self.file_name = Some(name);
    }

    /// Whether the document was changed since it was loaded or saved.
    pub fn is_dirty(&self) -> (dirty: bool)
        ensures
            dirty == self@.dirty,
    {
        self.dirty
    }

    /// Looks for `query` from `at` on, through the rows: what it yields is
    /// the first place the search comes upon, and it yields none only where
    /// the query occurs nowhere in the range searched.
    pub fn find(&self, query: &str, at: &Position, direction: SearchDirection) -> (found: Option<
        Position,
    >)
        ensures
            self@.finds(query@, *at, direction, found),
    {
        if at.row >= self.rows.len() {
            return None;
        }
        let mut row = at.row;
        let mut column = at.column;
        loop
            invariant
                at.row < self.rows.len(),
                row < self.rows.len(),
                column == self@.search_column(*at, direction, row as int),
                direction == SearchDirection::Forward ==> at.row <= row && forall|r: int|
                    at.row <= r < row ==> self@.row_finds(query@, *at, direction, r, None),
                direction == SearchDirection::Backward ==> row <= at.row && forall|r: int|
                    row < r <= at.row ==> self@.row_finds(query@, *at, direction, r, None),
            decreases
                    match direction {
                        SearchDirection::Forward => self.rows.len() - row,
                        SearchDirection::Backward => row + 1,
                    },
        {
            if let Some(hit) = self.rows[row].find(query, column, direction) {
                return Some(Position { column: hit, row });
            }
            match direction {
                SearchDirection::Forward => {
                    if row + 1 >= self.rows.len() {
                        return None;
                    }
                    row = row + 1;
                    column = 0;
                },
                SearchDirection::Backward => {
                    if row == 0 {
                        return None;
                    }
                    row = row - 1;
                    column = self.rows[row].len();
                },
            }
        }
    }
}

} // verus!
