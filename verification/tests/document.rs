use eru::document::IoError;
use eru::{Document, Position, SearchDirection};

fn text(document: &Document, index: usize) -> String {
    String::from_utf8(document.row(index).unwrap().as_bytes().to_vec()).unwrap()
}

fn texts(document: &Document) -> Vec<String> {
    (0..document.len()).map(|i| text(document, i)).collect()
}

fn opened(contents: &str) -> Document {
    Document::open("file.txt", Ok(contents.to_string())).unwrap()
}

fn at(column: usize, row: usize) -> Position {
    Position { column, row }
}

#[test]
fn open_counts_lines_and_graphemes() {
    let document = opened("abc\nαβγ\ndef\n");
    assert_eq!(document.len(), 3);
    assert_eq!(document.row(1).unwrap().len(), 3);
    assert_eq!(texts(&document), vec!["abc", "αβγ", "def"]);
    assert!(!document.is_dirty());
    assert_eq!(document.file_name(), Some("file.txt"));
}

#[test]
fn open_takes_the_last_line_without_a_line_feed() {
    assert_eq!(texts(&opened("abc\ndef")), vec!["abc", "def"]);
}

#[test]
fn open_makes_no_row_of_a_final_line_feed() {
    assert_eq!(texts(&opened("abc\n")), vec!["abc"]);
    assert_eq!(texts(&opened("abc\n\n")), vec!["abc", ""]);
    assert_eq!(texts(&opened("\n")), vec![""]);
}

#[test]
fn open_of_an_empty_file_has_no_rows() {
    let document = opened("");
    assert_eq!(document.len(), 0);
    assert!(document.is_empty());
    assert!(document.row(0).is_none());
}

#[test]
fn open_drops_the_carriage_return_before_a_line_feed() {
    assert_eq!(texts(&opened("ab\r\ncd\r\n")), vec!["ab", "cd"]);
    assert_eq!(texts(&opened("a\rb\r\r\nc\r")), vec!["a\rb\r", "c\r"]);
}

#[test]
fn open_splits_as_lines_does() {
    for contents in ["", "a", "a\n", "a\nb", "\n\n", "a\r\n\r\nb", "\r", "\r\n", "x\r\r\n\ny\n"] {
        let expected: Vec<String> = contents.lines().map(|line| line.to_string()).collect();
        assert_eq!(texts(&opened(contents)), expected);
    }
}

#[test]
fn open_of_an_unreadable_file_gives_no_document() {
    let outcome = Document::open("file.txt", Err(IoError::Unreadable));
    assert!(matches!(outcome, Err(IoError::Unreadable)));
}

#[test]
fn default_document_is_empty_and_clean() {
    let document = Document::default();
    assert!(document.is_empty());
    assert_eq!(document.len(), 0);
    assert!(!document.is_dirty());
    assert_eq!(document.file_name(), None);
}

#[test]
fn row_out_of_range_is_none() {
    let document = opened("a\nb\n");
    assert!(document.row(1).is_some());
    assert!(document.row(2).is_none());
}

#[test]
fn insert_newline_at_the_end_of_a_row() {
    let mut document = opened("abc\n");
    document.insert(&at(3, 0), '\n');
    assert_eq!(texts(&document), vec!["abc", ""]);
    assert_eq!(document.len(), 2);
    assert!(document.is_dirty());
}

#[test]
fn insert_newline_in_the_middle_of_a_row() {
    let mut document = opened("hello\nworld\n");
    document.insert(&at(2, 0), '\n');
    assert_eq!(texts(&document), vec!["he", "llo", "world"]);
}

#[test]
fn insert_newline_one_row_past_the_end_does_nothing() {
    let mut document = opened("abc\n");
    document.insert(&at(0, 1), '\n');
    assert_eq!(texts(&document), vec!["abc"]);
    assert!(!document.is_dirty());
}

#[test]
fn insert_newline_leaves_the_dirty_flag() {
    let mut document = opened("abc\n");
    document.insert_newline(&at(1, 0));
    assert_eq!(texts(&document), vec!["a", "bc"]);
    assert!(!document.is_dirty());
    document.insert_newline(&at(0, 2));
    document.insert_newline(&at(3, 1));
    assert_eq!(texts(&document), vec!["a", "bc"]);
}

#[test]
fn insert_into_a_row() {
    let mut document = opened("ac\nxyz\n");
    document.insert(&at(1, 0), 'b');
    assert_eq!(texts(&document), vec!["abc", "xyz"]);
    assert!(document.is_dirty());
    document.insert(&at(3, 1), '!');
    assert_eq!(texts(&document), vec!["abc", "xyz!"]);
}

#[test]
fn insert_one_row_past_the_end_appends_a_row() {
    let mut document = Document::default();
    document.insert(&at(0, 0), 'a');
    assert_eq!(texts(&document), vec!["a"]);
    assert!(document.is_dirty());
    document.insert(&at(7, 1), 'b');
    assert_eq!(texts(&document), vec!["a", "b"]);
}

#[test]
fn insert_beyond_the_rows_does_nothing() {
    let mut document = opened("abc\n");
    document.insert(&at(0, 2), 'x');
    assert_eq!(texts(&document), vec!["abc"]);
    assert!(!document.is_dirty());
}

#[test]
fn insert_beyond_the_end_of_a_row_does_nothing() {
    let mut document = opened("abc\n");
    document.insert(&at(4, 0), 'x');
    assert_eq!(texts(&document), vec!["abc"]);
    assert!(!document.is_dirty());
}

#[test]
fn delete_at_the_end_of_a_row_joins_it_with_the_next() {
    let mut document = opened("foo\nbar\n");
    document.delete(&at(3, 0));
    assert_eq!(texts(&document), vec!["foobar"]);
    assert_eq!(document.len(), 1);
    assert!(document.is_dirty());
}

#[test]
fn delete_within_a_row() {
    let mut document = opened("foo\nbar\n");
    document.delete(&at(1, 1));
    assert_eq!(texts(&document), vec!["foo", "br"]);
    assert!(document.is_dirty());
}

#[test]
fn delete_at_the_end_of_the_last_row_does_nothing() {
    let mut document = opened("foo\nbar\n");
    document.delete(&at(3, 1));
    assert_eq!(texts(&document), vec!["foo", "bar"]);
    assert!(!document.is_dirty());
}

#[test]
fn delete_out_of_range_does_nothing() {
    let mut document = opened("foo\nbar\n");
    document.delete(&at(0, 2));
    document.delete(&at(9, 0));
    assert_eq!(texts(&document), vec!["foo", "bar"]);
    assert!(!document.is_dirty());
}

#[test]
fn insert_then_delete_gives_the_document_back() {
    let mut document = opened("αβγ\nxyz\n");
    document.insert(&at(2, 0), 'q');
    assert_eq!(texts(&document), vec!["αβqγ", "xyz"]);
    document.delete(&at(2, 0));
    assert_eq!(texts(&document), vec!["αβγ", "xyz"]);
}

#[test]
fn contents_ends_every_row_with_a_line_feed() {
    assert_eq!(opened("abc\nαβγ").contents(), "abc\nαβγ\n");
    assert_eq!(opened("").contents(), "");
    assert_eq!(opened("\n").contents(), "\n");
}

#[test]
fn contents_loads_back_as_the_same_rows() {
    let mut document = opened("one\ntwo\n\nfour");
    document.insert(&at(3, 1), '\n');
    document.insert(&at(0, 0), '1');
    let again = opened(&document.contents());
    assert_eq!(texts(&again), texts(&document));
    assert_eq!(again.contents(), document.contents());
}

#[test]
fn save_without_a_file_name_fails() {
    let mut document = Document::default();
    document.insert(&at(0, 0), 'a');
    assert_eq!(document.save(Ok(())), Err(IoError::NoFileName));
    assert!(document.is_dirty());
}

#[test]
fn save_clears_the_dirty_flag() {
    let mut document = opened("abc\n");
    document.insert(&at(0, 0), 'x');
    assert!(document.is_dirty());
    assert_eq!(document.save(Ok(())), Ok(()));
    assert!(!document.is_dirty());
}

#[test]
fn save_that_could_not_write_leaves_the_dirty_flag() {
    let mut document = opened("abc\n");
    document.insert(&at(0, 0), 'x');
    assert_eq!(document.save(Err(IoError::Unwritable)), Err(IoError::Unwritable));
    assert!(document.is_dirty());
}

#[test]
fn save_after_the_file_name_was_set() {
    let mut document = Document::default();
    document.insert(&at(0, 0), 'a');
    document.set_file_name("new.txt".to_string());
    assert_eq!(document.save(Ok(())), Ok(()));
    assert!(!document.is_dirty());
}

#[test]
fn find_forward_goes_on_in_the_rows_below() {
    let document = opened("foo bar\nbaz\nbar foo\n");
    let forward = SearchDirection::Forward;
    assert_eq!(document.find("bar", &at(0, 0), forward), Some(at(4, 0)));
    assert_eq!(document.find("bar", &at(4, 0), forward), Some(at(4, 0)));
    assert_eq!(document.find("bar", &at(5, 0), forward), Some(at(0, 2)));
    assert_eq!(document.find("foo", &at(1, 0), forward), Some(at(4, 2)));
    assert_eq!(document.find("baz", &at(1, 1), forward), None);
    assert_eq!(document.find("qux", &at(0, 0), forward), None);
}

#[test]
fn find_backward_goes_on_in_the_rows_above() {
    let document = opened("foo bar\nbaz\nbar foo\n");
    let backward = SearchDirection::Backward;
    assert_eq!(document.find("foo", &at(7, 2), backward), Some(at(4, 2)));
    assert_eq!(document.find("foo", &at(6, 2), backward), Some(at(0, 0)));
    assert_eq!(document.find("bar", &at(2, 2), backward), Some(at(4, 0)));
    assert_eq!(document.find("baz", &at(0, 1), backward), None);
    assert_eq!(document.find("qux", &at(7, 2), backward), None);
}

#[test]
fn find_from_a_row_that_is_not_there_yields_nothing() {
    let document = opened("foo\n");
    assert_eq!(document.find("foo", &at(0, 1), SearchDirection::Forward), None);
    assert_eq!(document.find("foo", &at(0, 1), SearchDirection::Backward), None);
}

#[test]
fn find_from_a_column_beyond_the_row_skips_that_row() {
    let document = opened("foo\nfoo\n");
    assert_eq!(document.find("foo", &at(9, 0), SearchDirection::Forward), Some(at(0, 1)));
    assert_eq!(document.find("foo", &at(9, 1), SearchDirection::Backward), Some(at(0, 0)));
}

#[test]
fn find_yields_grapheme_columns() {
    let document = opened("αβγ\nδεζ\n");
    assert_eq!(document.find("ζ", &at(0, 0), SearchDirection::Forward), Some(at(2, 1)));
}

#[test]
fn position_default_is_the_origin() {
    assert_eq!(Position::default(), at(0, 0));
}

#[test]
fn find_matches_whole_graphemes_only() {
    let document = opened("xe\u{301}\ne\n");
    assert_eq!(document.find("e", &at(0, 0), SearchDirection::Forward), Some(at(0, 1)));
    assert_eq!(document.find("e\u{301}", &at(1, 1), SearchDirection::Backward), Some(at(1, 0)));
}

#[test]
fn find_of_the_empty_query_in_the_document() {
    let document = opened("ab\n\ncd\n");
    assert_eq!(document.find("", &at(1, 0), SearchDirection::Forward), Some(at(1, 0)));
    assert_eq!(document.find("", &at(2, 0), SearchDirection::Forward), Some(at(0, 2)));
    assert_eq!(document.find("", &at(2, 2), SearchDirection::Forward), None);
    assert_eq!(document.find("", &at(2, 2), SearchDirection::Backward), None);
}
