use eru::{Row, SearchDirection};

fn text(row: &Row) -> String {
    String::from_utf8(row.as_bytes().to_vec()).unwrap()
}

#[test]
fn from_counts_graphemes_not_bytes() {
    let row = Row::from("αβγ");
    assert_eq!(row.len(), 3);
    assert_eq!(row.as_bytes().len(), 6);
    assert!(!row.is_empty());
}

#[test]
fn from_counts_a_letter_with_its_mark_once() {
    let row = Row::from("e\u{301}x");
    assert_eq!(row.len(), 2);
}

#[test]
fn from_counts_a_flag_once() {
    let row = Row::from("a\u{1F1F7}\u{1F1FA}b");
    assert_eq!(row.len(), 3);
}

#[test]
fn empty_row_is_empty() {
    let row = Row::from("");
    assert_eq!(row.len(), 0);
    assert!(row.is_empty());
    assert_eq!(text(&row), "");
}

#[test]
fn default_row_is_empty() {
    let row = Row::default();
    assert!(row.is_empty());
    assert_eq!(row.len(), 0);
}

#[test]
fn insert_at_the_start() {
    let mut row = Row::from("bc");
    row.insert(0, 'a');
    assert_eq!(text(&row), "abc");
    assert_eq!(row.len(), 3);
}

#[test]
fn insert_in_the_middle_shifts_what_follows() {
    let mut row = Row::from("ac");
    row.insert(1, 'b');
    assert_eq!(text(&row), "abc");
    assert_eq!(row.len(), 3);
}

#[test]
fn insert_at_len_appends() {
    let mut row = Row::from("ab");
    row.insert(2, 'c');
    assert_eq!(text(&row), "abc");
    assert_eq!(row.len(), 3);
}

#[test]
fn insert_goes_between_graphemes_not_code_points() {
    let mut row = Row::from("e\u{301}x");
    row.insert(1, 'y');
    assert_eq!(text(&row), "e\u{301}yx");
    assert_eq!(row.len(), 3);
}

#[test]
fn insert_of_a_combining_mark_joins_the_grapheme_before() {
    let mut row = Row::from("e");
    row.insert(1, '\u{301}');
    assert_eq!(text(&row), "e\u{301}");
    assert_eq!(row.len(), 1);
}

#[test]
fn delete_removes_one_grapheme() {
    let mut row = Row::from("abc");
    row.delete(1);
    assert_eq!(text(&row), "ac");
    assert_eq!(row.len(), 2);
}

#[test]
fn delete_removes_the_whole_cluster() {
    let mut row = Row::from("ae\u{301}b");
    row.delete(1);
    assert_eq!(text(&row), "ab");
    assert_eq!(row.len(), 2);
}

#[test]
fn delete_past_the_end_does_nothing() {
    let mut row = Row::from("abc");
    row.delete(3);
    assert_eq!(text(&row), "abc");
    row.delete(100);
    assert_eq!(text(&row), "abc");
    assert_eq!(row.len(), 3);
}

#[test]
fn insert_then_delete_gives_the_row_back() {
    for at in 0..=3 {
        let mut row = Row::from("αβγ");
        row.insert(at, 'x');
        assert_eq!(row.len(), 4);
        row.delete(at);
        assert_eq!(text(&row), "αβγ");
        assert_eq!(row.len(), 3);
    }
}

#[test]
fn append_joins_the_texts() {
    let mut row = Row::from("foo");
    row.append(&Row::from("bar"));
    assert_eq!(text(&row), "foobar");
    assert_eq!(row.len(), 6);
}

#[test]
fn append_of_an_empty_row_changes_nothing() {
    let mut row = Row::from("foo");
    row.append(&Row::default());
    assert_eq!(text(&row), "foo");
    assert_eq!(row.len(), 3);
}

#[test]
fn split_cuts_before_the_grapheme() {
    let mut row = Row::from("hello");
    let rest = row.split(2);
    assert_eq!(text(&row), "he");
    assert_eq!(text(&rest), "llo");
    assert_eq!(row.len() + rest.len(), 5);
}

#[test]
fn split_at_the_ends() {
    let mut row = Row::from("abc");
    let rest = row.split(3);
    assert_eq!(text(&row), "abc");
    assert_eq!(text(&rest), "");
    let rest = row.split(0);
    assert_eq!(text(&row), "");
    assert_eq!(text(&rest), "abc");
}

#[test]
fn split_then_append_gives_the_row_back() {
    for at in 0..=4 {
        let mut row = Row::from("aαe\u{301}z");
        let rest = row.split(at);
        row.append(&rest);
        assert_eq!(text(&row), "aαe\u{301}z");
        assert_eq!(row.len(), 4);
    }
}

#[test]
fn find_forward_yields_the_first_occurrence() {
    let row = Row::from("abcabc");
    assert_eq!(row.find("bc", 0, SearchDirection::Forward), Some(1));
    assert_eq!(row.find("bc", 1, SearchDirection::Forward), Some(1));
    assert_eq!(row.find("bc", 2, SearchDirection::Forward), Some(4));
    assert_eq!(row.find("bc", 5, SearchDirection::Forward), None);
}

#[test]
fn find_backward_yields_the_last_occurrence_before() {
    let row = Row::from("abcabc");
    assert_eq!(row.find("bc", 6, SearchDirection::Backward), Some(4));
    assert_eq!(row.find("bc", 5, SearchDirection::Backward), Some(1));
    assert_eq!(row.find("bc", 3, SearchDirection::Backward), Some(1));
    assert_eq!(row.find("bc", 2, SearchDirection::Backward), None);
    assert_eq!(row.find("bc", 0, SearchDirection::Backward), None);
}

#[test]
fn find_yields_grapheme_indices() {
    let row = Row::from("αβγ");
    assert_eq!(row.find("γ", 0, SearchDirection::Forward), Some(2));
    assert_eq!(row.find("βγ", 3, SearchDirection::Backward), Some(1));
}

#[test]
fn find_of_an_absent_query_yields_nothing() {
    let row = Row::from("hello");
    assert_eq!(row.find("xyz", 0, SearchDirection::Forward), None);
    assert_eq!(row.find("xyz", 5, SearchDirection::Backward), None);
    assert_eq!(row.find("hello!", 0, SearchDirection::Forward), None);
}

#[test]
fn find_from_beyond_the_end_yields_nothing() {
    let row = Row::from("hello");
    assert_eq!(row.find("h", 6, SearchDirection::Forward), None);
    assert_eq!(row.find("h", 6, SearchDirection::Backward), None);
    assert_eq!(row.find("o", 5, SearchDirection::Forward), None);
}

#[test]
fn find_does_not_match_inside_a_cluster() {
    let row = Row::from("e\u{301}x\u{301}");
    assert_eq!(row.find("\u{301}", 0, SearchDirection::Forward), None);
    assert_eq!(row.find("\u{301}", 2, SearchDirection::Backward), None);
}

#[test]
fn find_does_not_match_the_beginning_of_a_cluster() {
    let row = Row::from("xe\u{301}");
    assert_eq!(row.find("e", 0, SearchDirection::Forward), None);
    assert_eq!(row.find("e", 2, SearchDirection::Backward), None);
    assert_eq!(row.find("xe", 0, SearchDirection::Forward), None);
    let row = Row::from("e\u{301}");
    assert_eq!(row.find("e", 0, SearchDirection::Forward), None);
}

#[test]
fn find_matches_whole_graphemes() {
    let row = Row::from("xe\u{301}ye");
    assert_eq!(row.len(), 4);
    assert_eq!(row.find("e\u{301}", 0, SearchDirection::Forward), Some(1));
    assert_eq!(row.find("xe\u{301}y", 0, SearchDirection::Forward), Some(0));
    assert_eq!(row.find("e", 0, SearchDirection::Forward), Some(3));
    assert_eq!(row.find("e", 4, SearchDirection::Backward), Some(3));
    assert_eq!(row.find("e\u{301}", 4, SearchDirection::Backward), Some(1));
    assert_eq!(row.find("e\u{301}y", 2, SearchDirection::Backward), None);
}

#[test]
fn find_backward_yields_a_match_that_ends_before() {
    let row = Row::from("abcabc");
    assert_eq!(row.find("abc", 6, SearchDirection::Backward), Some(3));
    assert_eq!(row.find("abc", 5, SearchDirection::Backward), Some(0));
    assert_eq!(row.find("abc", 3, SearchDirection::Backward), Some(0));
    assert_eq!(row.find("abc", 2, SearchDirection::Backward), None);
}

#[test]
fn find_of_the_empty_query() {
    let row = Row::from("abc");
    assert_eq!(row.find("", 1, SearchDirection::Forward), Some(1));
    assert_eq!(row.find("", 3, SearchDirection::Forward), None);
    assert_eq!(row.find("", 0, SearchDirection::Forward), Some(0));
    assert_eq!(row.find("", 4, SearchDirection::Forward), None);
    assert_eq!(row.find("", 3, SearchDirection::Backward), None);
    assert_eq!(row.find("", 2, SearchDirection::Backward), None);
    assert_eq!(row.find("", 0, SearchDirection::Backward), None);
    assert_eq!(Row::from("").find("", 0, SearchDirection::Forward), None);
}

#[test]
fn as_bytes_is_the_text_in_utf8() {
    let row = Row::from("aβ");
    assert_eq!(row.as_bytes(), &[0x61, 0xCE, 0xB2]);
}
