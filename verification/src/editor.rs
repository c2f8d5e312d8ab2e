//! The editing session: where the cursor stands, which part of the buffer
//! the screen shows, what each key does to them, and the lines of text that
//! the screen is made of.
//!
//! Nothing here reads a key or writes to the screen. The caller reads the key
//! and hands it in; it gets back the state to go on with and the text to show.

use crate::document::{loaded, Document, DocumentView, IoError};
use crate::position::{Position, SearchDirection};
use crate::row::Row;
use crate::terminal::Size;
use crate::text::{decimal, first_chars, prefix, push_char, push_decimal, push_spaces, spaces};
use vstd::prelude::*;

verus! {

/// How often Ctrl-Q must be confirmed before unsaved changes are thrown away.
pub const QUIT_TIMES: u8 = 3;

/// For how many milliseconds a status message is shown.
pub const MESSAGE_TIME: u64 = 5000;

/// How many characters of the file name the status bar shows.
pub const NAME_WIDTH: usize = 20;

pub const VERSION: &'static str = "0.1.0";

pub const HELP: &'static str = "[!] HELP: Ctrl-Q -- quit | Ctrl-S -- save | Ctrl-F -- find";

pub const OPEN_FAILED: &'static str = "[!] ERROR: eru: Could not open file: ";

pub const QUIT_WARNING_HEAD: &'static str = "[!] WARNING: File has unsaved changes. Press Ctrl-Q ";

pub const QUIT_WARNING_TAIL: &'static str = " more times to quit.";

pub const WELCOME: &'static str = "Eru editor -- version ";

pub const NO_NAME: &'static str = "[No Name]";

pub const LINES: &'static str = " lines ";

pub const MODIFIED: &'static str = " (modified)";

pub const SAVE_PROMPT: &'static str = "[!] ATTENTION: Save as: ";

pub const SAVE_ABORTED: &'static str = "[!] ERROR: Save aborted...";

pub const SAVED: &'static str = "[!] ATTENTION: File saved successfully!";

pub const SAVE_FAILED: &'static str = "[!] ERROR: Error writing to file!";

pub const SEARCH_PROMPT: &'static str = "[!] SEARCH (ESC to quit, Arrows to navigate): ";

/// A key as the session tells keys apart.
#[derive(Clone, Copy, Debug, PartialEq, Eq, Structural)]
pub enum Key {
    Backspace,
    Left,
    Right,
    Up,
    Down,
    Home,
    End,
    PageUp,
    PageDown,
    Delete,
    Char(char),
    Ctrl(char),
    Esc,
    /// Any key that the session does nothing with.
    Other,
}

/// What is left for the caller to do once a key was processed.
#[derive(Clone, Copy, Debug, PartialEq, Eq, Structural)]
pub enum Command {
    /// Nothing: the key was dealt with.
    Done,
    /// Save the document, asking for a file name where it has none.
    Save,
    /// Ask for a query and search for it.
    Search,
}

/// A message for the message bar, and the time at which it was set, in
/// milliseconds on the caller's clock.
pub struct StatusMsg {
    pub text: String,
    pub time: u64,
}

impl StatusMsg {
    pub fn from(msg: String, now: u64) -> (message: Self)
        ensures
            message.text == msg,
            message.time == now,
    {
        StatusMsg { text: msg, time: now }
    }
}

/// The number of graphemes in row `row` of the document, and zero where it
/// has no such row.
pub open spec fn row_width(document: DocumentView, row: usize) -> usize {
    if row < document.rows.len() {
        document.rows[row as int].len() as usize
    } else {
        0
    }
}

/// Where the cursor goes from `cursor` on `key`, in a document whose rows
/// are `document` and on a screen of `page` lines. The arrow keys step by one
/// grapheme or one row, and from the end of a row to the beginning of the
/// next and back; the page keys step by a screen; Home and End go to the ends
/// of the row. The cursor may stand one row below the last. Any other key
/// leaves it where it is.
pub open spec fn moved(cursor: Position, key: Key, document: DocumentView, page: usize) -> Position {
    let x = cursor.column;
    let y = cursor.row;
    let height = document.rows.len();
    let width = row_width(document, y);
    match key {
        Key::Up => Position { column: x, row: y.saturating_sub(1) },
        Key::Down => if y < height {
            Position { column: x, row: y.saturating_add(1) }
        } else {
            cursor
        },
        Key::Left => if x > 0 {
            Position { column: (x - 1) as usize, row: y }
        } else if y > 0 {
            Position { column: row_width(document, (y - 1) as usize), row: (y - 1) as usize }
        } else {
            cursor
        },
        Key::Right => if x < width {
            Position { column: (x + 1) as usize, row: y }
        } else if y < height {
            Position { column: 0, row: (y + 1) as usize }
        } else {
            cursor
        },
        Key::PageUp => Position {
            column: x,
            row: if y > page {
                y.saturating_sub(page)
            } else {
                0
            },
        },
        Key::PageDown => Position {
            column: x,
            row: if y.saturating_add(page) < height {
                y.saturating_add(page)
            } else {
                height as usize
            },
        },
        Key::Home => Position { column: 0, row: y },
        Key::End => Position { column: width, row: y },
        _ => cursor,
    }
}

/// Where a window of `extent` cells that begins at `offset` begins once it
/// has followed the cursor to `at`: at the cursor where the cursor stood
/// before the window, just far enough on to show the cursor in its last
/// cell where the cursor stood behind it, and where it was otherwise.
pub open spec fn scrolled_to(offset: usize, at: usize, extent: usize) -> usize {
    if at < offset {
        at
    } else if at >= offset.saturating_add(extent) {
        at.saturating_sub(extent).saturating_add(1)
    } else {
        offset
    }
}

/// The text that warns of unsaved changes, `times` confirmations short of
/// quitting.
pub open spec fn quit_warning(times: u8) -> Seq<char> {
    QUIT_WARNING_HEAD@ + decimal(times as nat) + QUIT_WARNING_TAIL@
}

/// The line that greets the user on an empty screen `width` cells wide: a
/// tilde, then the name and version of the editor, moved towards the middle.
pub open spec fn welcome_text(width: usize) -> Seq<char> {
    let message = WELCOME@ + VERSION@;
    let padding = (width as int - message.len()) / 2;
    seq!['~'] + spaces(
        if message.len() <= width && padding >= 1 {
            (padding - 1) as nat
        } else {
            0
        },
    ) + message
}

/// A control character.
pub open spec fn is_control(c: char) -> bool {
    c <= '\x1f' || '\x7f' <= c <= '\u{9f}'
}

/// What the answer to a prompt is after `key`: Backspace takes its last
/// character, Escape all of it, and a character that is no control
/// character is put at its end.
pub open spec fn prompt_input(input: Seq<char>, key: Key) -> Seq<char> {
    match key {
        Key::Backspace => if input.len() > 0 {
            input.drop_last()
        } else {
            input
        },
        Key::Char(c) => if c != '\n' && !is_control(c) {
            input.push(c)
        } else {
            input
        },
        Key::Esc => Seq::empty(),
        _ => input,
    }
}

/// Whether `key` ends a prompt: Enter and Escape do.
pub open spec fn prompt_ends(key: Key) -> bool {
    key == Key::Char('\n') || key == Key::Esc
}

/// What is left for the caller to do after `key`.
pub open spec fn command_of(key: Key) -> Command {
    if key == Key::Ctrl('s') {
        Command::Save
    } else if key == Key::Ctrl('f') {
        Command::Search
    } else {
        Command::Done
    }
}

/// The direction in which a search goes on after `key`: backward on Left
/// and Up, forward on every other key.
pub open spec fn search_direction(key: Key) -> SearchDirection {
    if key == Key::Left || key == Key::Up {
        SearchDirection::Backward
    } else {
        SearchDirection::Forward
    }
}

/// What a session is.
#[verifier::ext_equal]
pub struct EditorView {
    pub should_quit: bool,
    pub cur_pos: Position,
    pub offset: Position,
    pub document: DocumentView,
    pub status: Seq<char>,
    pub status_time: u64,
    pub quit_times: u8,
}

impl EditorView {
    /// The session with `text` as its status message, set at `now`.
    pub open spec fn with_status(self, text: Seq<char>, now: u64) -> EditorView {
        EditorView { status: text, status_time: now, ..self }
    }

    /// The session with the cursor moved on `key`.
    pub open spec fn moved(self, key: Key, size: Size) -> EditorView {
        EditorView {
            cur_pos: moved(self.cur_pos, key, self.document, size.height as usize),
            ..self
        }
    }

    /// The session with the window moved so that it shows the cursor.
    pub open spec fn scrolled(self, size: Size) -> EditorView {
        EditorView {
            offset: Position {
                column: scrolled_to(self.offset.column, self.cur_pos.column, size.width as usize),
                row: scrolled_to(self.offset.row, self.cur_pos.row, size.height as usize),
            },
            ..self
        }
    }

    /// What ends the processing of a key: the window follows the cursor, and
    /// a count of confirmations that was begun is given up, together with
    /// the message that asked for them.
    pub open spec fn settled(self, size: Size, now: u64) -> EditorView {
        let shown = self.scrolled(size);
        if shown.quit_times < QUIT_TIMES {
            EditorView { quit_times: QUIT_TIMES, ..shown.with_status(Seq::empty(), now) }
        } else {
            shown
        }
    }

    /// The session after `c` was typed: the document takes it at the cursor,
    /// and the cursor moves right.
    pub open spec fn typed(self, c: char, size: Size) -> EditorView {
        EditorView { document: self.document.inserted(self.cur_pos, c), ..self }.moved(
            Key::Right,
            size,
        )
    }

    /// The session after the deletion at the cursor.
    pub open spec fn erased(self) -> EditorView {
        EditorView { document: self.document.deleted(self.cur_pos), ..self }
    }

    /// The session after Backspace: the cursor moves left and the document
    /// loses what then stands at it; at the very beginning nothing happens.
    pub open spec fn erased_backward(self, size: Size) -> EditorView {
        if self.cur_pos.column > 0 || self.cur_pos.row > 0 {
            self.moved(Key::Left, size).erased()
        } else {
            self
        }
    }

    /// The session after Ctrl-Q. With unsaved changes and confirmations left
    /// to give, it warns and counts one confirmation; otherwise it is to end.
    pub open spec fn quit_requested(self, size: Size, now: u64) -> EditorView {
        if self.quit_times > 0 && self.document.dirty {
            EditorView {
                quit_times: (self.quit_times - 1) as u8,
                ..self.with_status(quit_warning(self.quit_times), now)
            }
        } else {
            EditorView { should_quit: true, ..self }.settled(size, now)
        }
    }

    /// The session after `key`. Ctrl-S and Ctrl-F change nothing by
    /// themselves: they are commands for the caller to carry out.
    pub open spec fn after_key(self, key: Key, size: Size, now: u64) -> EditorView {
        match key {
            Key::Ctrl(c) => if c == 'q' {
                self.quit_requested(size, now)
            } else if c == 's' || c == 'f' {
                self
            } else {
                self.settled(size, now)
            },
            Key::Char(c) => self.typed(c, size).settled(size, now),
            Key::Up | Key::Down | Key::Left | Key::Right | Key::PageUp | Key::PageDown | Key::End
            | Key::Home => self.moved(key, size).settled(size, now),
            Key::Delete => self.erased().settled(size, now),
            Key::Backspace => self.erased_backward(size).settled(size, now),
            _ => self.settled(size, now),
        }
    }

    /// The session after `key` was pressed while the user types a query, the
    /// search having yielded `found`. Right and Down step on from the match the cursor stands at
    /// before searching forward; Left and Up search backward. The cursor
    /// goes to what the search finds and the window follows it; where it
    /// finds nothing the step, if one was made, is taken back.
    pub open spec fn searched(self, key: Key, size: Size, found: Option<Position>) -> EditorView {
        let stepped = key == Key::Right || key == Key::Down;
        let from = if stepped {
            self.moved(Key::Right, size)
        } else {
            self
        };
        match found {
            Some(place) => EditorView { cur_pos: place, ..from }.scrolled(size),
            None => if stepped {
                from.moved(Key::Left, size)
            } else {
                from
            },
        }
    }

    /// The place from which the search after `key` sets out.
    pub open spec fn search_from(self, key: Key, size: Size) -> Position {
        if key == Key::Right || key == Key::Down {
            self.moved(Key::Right, size).cur_pos
        } else {
            self.cur_pos
        }
    }

    /// The left part of the status bar: the name of the file cut down to
    /// `NAME_WIDTH` characters, the number of lines, and whether the document
    /// was changed.
    pub open spec fn status_text(self) -> Seq<char> {
        let name = match self.document.file_name {
            Some(name) => prefix(name, NAME_WIDTH as nat),
            None => NO_NAME@,
        };
        name + seq![' ', '-', ' '] + decimal(self.document.rows.len()) + LINES@ + if self.document.dirty {
            MODIFIED@
        } else {
            Seq::empty()
        }
    }

    /// The right part of the status bar: the line of the cursor, counted
    /// from one, and the number of lines.
    pub open spec fn line_indicator(self) -> Seq<char> {
        decimal(self.cur_pos.row.saturating_add(1) as nat) + seq!['/'] + decimal(
            self.document.rows.len(),
        )
    }

    /// The status bar of a screen `width` cells wide: its left part, its
    /// right part moved to the right end where there is room, and all of it
    /// cut down to the width.
    pub open spec fn status_bar(self, width: usize) -> Seq<char> {
        let status = self.status_text();
        let indicator = self.line_indicator();
        let filled = if width > status.len() + indicator.len() {
            status + spaces((width - status.len() - indicator.len()) as nat)
        } else {
            status
        };
        prefix(filled + indicator, width as nat)
    }

    /// The message bar at time `now`: the status message cut down to the
    /// width while it is younger than `MESSAGE_TIME`, and nothing after that.
    pub open spec fn message_bar(self, width: usize, now: u64) -> Seq<char> {
        if now - self.status_time < MESSAGE_TIME {
            prefix(self.status, width as nat)
        } else {
            Seq::empty()
        }
    }

    /// What line `line` of the screen shows: the row of the document that
    /// the window has there, from the window's first column on; on an empty
    /// document, a third of the way down, the welcome; and otherwise a tilde.
    pub open spec fn screen_line(self, line: u16, size: Size) -> Seq<char> {
        let row = self.offset.row.saturating_add(line as usize);
        if row < self.document.rows.len() {
            self.document.rows[row as int].rendered(
                self.offset.column as int,
                self.offset.column.saturating_add(size.width as usize) as int,
            )
        } else if self.document.rows.len() == 0 && line == size.height / 3 {
            welcome_text(size.width as usize)
        } else {
            seq!['~']
        }
    }
}

/// The window shows the cursor once it has followed it, wherever the cursor
/// went: the cursor stands in one of the window's cells.
pub proof fn scrolled_window_shows_cursor(offset: usize, at: usize, extent: usize)
    requires
        extent > 0,
    ensures
        scrolled_to(offset, at, extent) <= at < scrolled_to(offset, at, extent) + extent,
{
}

/// The state of an editing session.
pub struct Editor {
    should_quit: bool,
    cur_pos: Position,
    offset: Position,
    document: Document,
    status_msg: StatusMsg,
    quit_times: u8,
}

impl View for Editor {
    type V = EditorView;

    closed spec fn view(&self) -> EditorView {
        EditorView {
            should_quit: self.should_quit,
            cur_pos: self.cur_pos,
            offset: self.offset,
            document: self.document@,
            status: self.status_msg.text@,
            status_time: self.status_msg.time,
            quit_times: self.quit_times,
        }
    }
}

/// The line that greets the user on an empty screen.
pub fn welcome_message(width: usize) -> (line: String)
    ensures
        line@ == welcome_text(width),
{
    let mut message = String::from_str(WELCOME);
    message.append(VERSION);
    let len = message.as_str().unicode_len();
    let padding = width.saturating_sub(len) / 2;
    let mut line = String::new();
    push_char(&mut line, '~');
    push_spaces(&mut line, padding.saturating_sub(1));
    line.append(message.as_str());
    assert(line@ =~= welcome_text(width));
    line
}

/// Takes `key` into the answer to a prompt, and says whether the prompt is
/// over with it.
pub fn prompt_key(input: &mut String, key: Key) -> (over: bool)
    ensures
        final(input)@ == prompt_input(old(input)@, key),
        over == prompt_ends(key),
{
    match key {
        Key::Backspace => {
            let len = input.as_str().unicode_len();
            if len > 0 {
                let shorter = String::from_str(input.as_str().substring_char(0, len - 1));
                assert(shorter@ =~= input@.drop_last());
                *input = shorter;
            }
            false
        },
        Key::Char(c) => {
            if c == '\n' {
                true
            } else {
                if !(c <= '\x1f' || (c >= '\x7f' && c <= '\u{9f}')) {
                    push_char(input, c);
                }
                false
            }
        },
        Key::Esc => {
            *input = String::new();
            true
        },
        _ => false,
    }
}

/// The answer that a prompt gives once it is over: what was typed, and
/// nothing where nothing was typed.
pub fn prompt_answer(input: String) -> (answer: Option<String>)
    ensures
        input@.len() == 0 ==> answer is None,
        input@.len() > 0 ==> answer == Some(input),
{
    if input.as_str().is_empty() {
        None
    } else {
        Some(input)
    }
}

impl Editor {
    /// A session on `document`, with `status` as its first message.
    pub fn new(document: Document, status: String, now: u64) -> (editor: Self)
        ensures
            editor@ == (EditorView {
                should_quit: false,
                cur_pos: Position { column: 0, row: 0 },
                offset: Position { column: 0, row: 0 },
                document: document@,
                status: status@,
                status_time: now,
                quit_times: QUIT_TIMES,
            }),
    {
        Editor {
            should_quit: false,
            cur_pos: Position { column: 0, row: 0 },
            offset: Position { column: 0, row: 0 },
            document,
            status_msg: StatusMsg::from(status, now),
            quit_times: QUIT_TIMES,
        }
    }

    /// A session on the file named `file_name`, of which `contents` is what
    /// reading it gave. Where it could not be read the session begins on an
    /// empty document and says so.
    pub fn with_file(file_name: &str, contents: Result<String, IoError>, now: u64) -> (editor: Self)
        ensures
            editor@.should_quit == false,
            editor@.cur_pos == (Position { column: 0, row: 0 }),
            editor@.offset == (Position { column: 0, row: 0 }),
            editor@.quit_times == QUIT_TIMES,
            editor@.status_time == now,
            match contents {
                Ok(text) => editor@.status == HELP@ && editor@.document == loaded(
                    file_name@,
                    text@,
                ),
                Err(_) => editor@.status == OPEN_FAILED@ + file_name@ && editor@.document == (
                DocumentView { rows: Seq::empty(), file_name: None, dirty: false }),
            },
    {
        match Document::open(file_name, contents) {
            Ok(document) => Editor::new(document, String::from_str(HELP), now),
            Err(_) => {
                let mut status = String::from_str(OPEN_FAILED);
                status.append(file_name);
                Editor::new(Document::default(), status, now)
            },
        }
    }

    /// A session on an empty document that belongs to no file.
    pub fn empty(now: u64) -> (editor: Self)
        ensures
            editor@ == (EditorView {
                should_quit: false,
                cur_pos: Position { column: 0, row: 0 },
                offset: Position { column: 0, row: 0 },
                document: DocumentView { rows: Seq::empty(), file_name: None, dirty: false },
                status: HELP@,
                status_time: now,
                quit_times: QUIT_TIMES,
            }),
    {
        Editor::new(Document::default(), String::from_str(HELP), now)
    }

    /// Whether the session is to end.
    pub fn should_quit(&self) -> (quit: bool)
        ensures
            quit == self@.should_quit,
    {
        self.should_quit
    }

    /// Where the cursor stands in the document.
    pub fn cursor(&self) -> (cursor: Position)
        ensures
            cursor == self@.cur_pos,
    {
        self.cur_pos
    }

    /// The place in the document that the upper left cell of the screen shows.
    pub fn offset(&self) -> (offset: Position)
        ensures
            offset == self@.offset,
    {
        self.offset
    }

    pub fn document(&self) -> (document: &Document)
        ensures
            document@ == self@.document,
    {
        &self.document
    }

    /// Where the cursor stands on the screen.
    pub fn cursor_on_screen(&self) -> (place: Position)
        ensures
            place == (Position {
                column: self@.cur_pos.column.saturating_sub(self@.offset.column),
                row: self@.cur_pos.row.saturating_sub(self@.offset.row),
            }),
    {
        Position {
            column: self.cur_pos.column.saturating_sub(self.offset.column),
            row: self.cur_pos.row.saturating_sub(self.offset.row),
        }
    }

    /// Sets the status message.
    pub fn set_status(&mut self, text: String, now: u64)
        ensures
            final(self)@ == old(self)@.with_status(text@, now),
    {
        self.status_msg = StatusMsg::from(text, now);
    }

    fn row_len(&self, row: usize) -> (width: usize)
        ensures
            width == row_width(self@.document, row),
    {
        match self.document.row(row) {
            Some(row) => row.len(),
            None => 0,
        }
    }

    /// Moves the cursor on `key`.
    pub fn move_cursor(&mut self, key: Key, size: Size)
        ensures
            final(self)@ == old(self)@.moved(key, size),
    {
        let page = size.height as usize;
        let mut y = self.cur_pos.row;
        let mut x = self.cur_pos.column;
        let height = self.document.len();
        let width = self.row_len(y);
        match key {
            Key::Up => {
                y = y.saturating_sub(1);
            },
            Key::Down => {
                if y < height {
                    y = y.saturating_add(1);
                }
            },
            Key::Left => {
                if x > 0 {
                    x -= 1;
                } else if y > 0 {
                    y -= 1;
                    x = self.row_len(y);
                }
            },
            Key::Right => {
                if x < width {
                    x += 1;
                } else if y < height {
                    y += 1;
                    x = 0;
                }
            },
            Key::PageUp => {
                y = if y > page {
                    y.saturating_sub(page)
                } else {
                    0
                };
            },
            Key::PageDown => {
                y = if y.saturating_add(page) < height {
                    y.saturating_add(page)
                } else {
                    height
                };
            },
            Key::Home => {
                x = 0;
            },
            Key::End => {
                x = width;
            },
            _ => {},
        }
        self.cur_pos = Position { column: x, row: y };
    }

    /// Moves the window so that it shows the cursor.
    pub fn scroll(&mut self, size: Size)
        ensures
            final(self)@ == old(self)@.scrolled(size),
    {
        let x = self.cur_pos.column;
        let y = self.cur_pos.row;
        let width = size.width as usize;
        let height = size.height as usize;
        let mut offset = self.offset;
        if y < offset.row {
            offset.row = y;
        } else if y >= offset.row.saturating_add(height) {
            offset.row = y.saturating_sub(height).saturating_add(1);
        }
        if x < offset.column {
            offset.column = x;
        } else if x >= offset.column.saturating_add(width) {
            offset.column = x.saturating_sub(width).saturating_add(1);
        }
        self.offset = offset;
    }

    /// Ends the processing of a key.
    pub fn settle(&mut self, size: Size, now: u64)
        ensures
            final(self)@ == old(self)@.settled(size, now),
    {
        self.scroll(size);
        if self.quit_times < QUIT_TIMES {
            self.quit_times = QUIT_TIMES;
            self.status_msg = StatusMsg::from(String::new(), now);
        }
    }

    /// Does what `key` asks for, and says what is left for the caller to do.
    /// After a command the caller carries it out and then calls `settle`.
    pub fn process_keypress(&mut self, key: Key, size: Size, now: u64) -> (command: Command)
        ensures
            final(self)@ == old(self)@.after_key(key, size, now),
            command == command_of(key),
    {
        match key {
            Key::Ctrl(c) => {
                if c == 'q' {
                    if self.quit_times > 0 && self.document.is_dirty() {
                        let mut warning = String::from_str(QUIT_WARNING_HEAD);
                        push_decimal(&mut warning, self.quit_times as usize);
                        warning.append(QUIT_WARNING_TAIL);
                        self.status_msg = StatusMsg::from(warning, now);
                        self.quit_times -= 1;
                        return Command::Done;
                    }
                    self.should_quit = true;
                } else if c == 's' {
                    return Command::Save;
                } else if c == 'f' {
                    return Command::Search;
                }
            },
            Key::Char(c) => {
                let at = self.cur_pos;
                self.document.insert(&at, c);
                self.move_cursor(Key::Right, size);
            },
            Key::Up | Key::Down | Key::Left | Key::Right | Key::PageUp | Key::PageDown | Key::End
            | Key::Home => {
                self.move_cursor(key, size);
            },
            Key::Delete => {
                let at = self.cur_pos;
                self.document.delete(&at);
            },
            Key::Backspace => {
                if self.cur_pos.column > 0 || self.cur_pos.row > 0 {
                    self.move_cursor(Key::Left, size);
                    let at = self.cur_pos;
                    self.document.delete(&at);
                }
            },
            _ => {},
        }
        self.settle(size, now);
        Command::Done
    }

    /// Shows a prompt and what was typed in answer to it so far.
    pub fn show_prompt(&mut self, prompt: &str, input: &str, now: u64)
        ensures
            final(self)@ == old(self)@.with_status(prompt@ + input@, now),
    {
        let mut text = String::from_str(prompt);
        text.append(input);
        self.status_msg = StatusMsg::from(text, now);
    }

    /// Clears the message bar when a prompt is over.
    pub fn end_prompt(&mut self, now: u64)
        ensures
            final(self)@ == old(self)@.with_status(Seq::empty(), now),
    {
        self.status_msg = StatusMsg::from(String::new(), now);
    }

    /// Searches on while the user types the query: `key` is the key just
    /// pressed and `query` what was typed so far.
    pub fn search_key(&mut self, key: Key, query: &str, size: Size)
        ensures
            exists|found: Option<Position>|
                {
                    &&& #[trigger] old(self)@.document.finds(
                        query@,
                        old(self)@.search_from(key, size),
                        search_direction(key),
                        found,
                    )
                    &&& final(self)@ == old(self)@.searched(key, size, found)
                },
    {
        let mut moved = false;
        let direction = match key {
            Key::Right | Key::Down => {
                self.move_cursor(Key::Right, size);
                moved = true;
                SearchDirection::Forward
            },
            Key::Left | Key::Up => SearchDirection::Backward,
            _ => SearchDirection::Forward,
        };
        let at = self.cur_pos;
        let found = self.document.find(query, &at, direction);
        match found {
            Some(place) => {
                self.cur_pos = place;
                self.scroll(size);
            },
            None => {
                if moved {
                    self.move_cursor(Key::Left, size);
                }
            },
        }
        assert(old(self)@.document.finds(
            query@,
            old(self)@.search_from(key, size),
            search_direction(key),
            found,
        ));
    }

    /// Ends a search. Where it was given up, `answer` being nothing, the
    /// cursor goes back to `origin`, where it stood when the search began.
    pub fn end_search(&mut self, answer: &Option<String>, origin: Position, size: Size)
        ensures
            final(self)@ == if answer is None {
                EditorView { cur_pos: origin, ..old(self)@ }.scrolled(size)
            } else {
                old(self)@
            },
    {
        if answer.is_none() {
            self.cur_pos = origin;
            self.scroll(size);
        }
    }

    /// Takes the answer to the question for a file name. Without an answer
    /// the save is given up, and the session says so; `go_on` tells whether
    /// there is a name now to save under.
    pub fn name_file(&mut self, answer: Option<String>, now: u64) -> (go_on: bool)
        ensures
            go_on == answer is Some,
            final(self)@ == match answer {
                Some(name) => EditorView {
                    document: DocumentView { file_name: Some(name@), ..old(self)@.document },
                    ..old(self)@
                },
                None => old(self)@.with_status(SAVE_ABORTED@, now),
            },
    {
        match answer {
            Some(name) => {
                self.document.set_file_name(name);
                true
            },
            None => {
                self.status_msg = StatusMsg::from(String::from_str(SAVE_ABORTED), now);
                false
            },
        }
    }

    /// Concludes a save: `written` is what writing the document's contents
    /// to its file gave. The session says how the save went.
    pub fn saved(&mut self, written: Result<(), IoError>, now: u64)
        ensures
            final(self)@ == if old(self)@.document.file_name is Some && written is Ok {
                EditorView {
                    document: DocumentView { dirty: false, ..old(self)@.document },
                    ..old(self)@.with_status(SAVED@, now)
                }
            } else {
                old(self)@.with_status(SAVE_FAILED@, now)
            },
    {
        let text = if self.document.save(written).is_ok() {
            String::from_str(SAVED)
        } else {
            String::from_str(SAVE_FAILED)
        };
        self.status_msg = StatusMsg::from(text, now);
    }

    /// The markup for `row` as the window shows it.
    pub fn draw_row(&self, row: &Row, size: Size) -> (line: String)
        ensures
            line@ == row@.rendered(
                self@.offset.column as int,
                self@.offset.column.saturating_add(size.width as usize) as int,
            ),
    {
        let width = size.width as usize;
        let start = self.offset.column;
        let end = self.offset.column.saturating_add(width);
        row.render(start, end)
    }

    /// What line `line` of the screen shows.
    pub fn screen_line(&self, line: u16, size: Size) -> (text: String)
        ensures
            text@ == self@.screen_line(line, size),
    {
        match self.document.row(self.offset.row.saturating_add(line as usize)) {
            Some(row) => self.draw_row(row, size),
            None => {
                if self.document.is_empty() && line == size.height / 3 {
                    welcome_message(size.width as usize)
                } else {
                    let mut text = String::new();
                    push_char(&mut text, '~');
                    text
                }
            },
        }
    }

    fn status_text(&self) -> (status: String)
        ensures
            status@ == self@.status_text(),
    {
        let mut status = match self.document.file_name() {
            Some(name) => first_chars(name, NAME_WIDTH),
            None => String::from_str(NO_NAME),
        };
        let ghost name = status@;
        push_char(&mut status, ' ');
        push_char(&mut status, '-');
        push_char(&mut status, ' ');
        assert(status@ =~= name + seq![' ', '-', ' ']);
        push_decimal(&mut status, self.document.len());
        status.append(LINES);
        if self.document.is_dirty() {
            status.append(MODIFIED);
        } else {
            assert(status@ =~= status@ + Seq::<char>::empty());
        }
        status
    }

    fn line_indicator(&self) -> (indicator: String)
        ensures
            indicator@ == self@.line_indicator(),
    {
        let mut indicator = String::new();
        push_decimal(&mut indicator, self.cur_pos.row.saturating_add(1));
        assert(indicator@ =~= decimal(self@.cur_pos.row.saturating_add(1) as nat));
        push_char(&mut indicator, '/');
        push_decimal(&mut indicator, self.document.len());
        indicator
    }

    /// The text of the status bar.
    pub fn status_bar(&self, width: usize) -> (bar: String)
        ensures
            bar@ == self@.status_bar(width),
    {
        let mut status = self.status_text();
        let indicator = self.line_indicator();
        let status_len = status.as_str().unicode_len();
        let indicator_len = indicator.as_str().unicode_len();
        if width > status_len && width - status_len > indicator_len {
            push_spaces(&mut status, width - status_len - indicator_len);
        }
        status.append(indicator.as_str());
        first_chars(status.as_str(), width)
    }

    /// The text of the message bar at time `now`.
    pub fn message_bar(&self, width: usize, now: u64) -> (bar: String)
        ensures
            bar@ == self@.message_bar(width, now),
    {
        if now < self.status_msg.time || now - self.status_msg.time < MESSAGE_TIME {
            first_chars(self.status_msg.text.as_str(), width)
        } else {
            String::new()
        }
    }
}

} // verus!
