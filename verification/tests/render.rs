use eru::highlight::{classify, Type};
use eru::terminal::Rgb;
use eru::Row;
use unicode_segmentation::UnicodeSegmentation;

const N: Type = Type::Number;
const M: Type = Type::Match;
const P: Type = Type::Plain;

const WHITE: &str = "\x1b[38;2;255;255;255m";
const NUMBER: &str = "\x1b[38;2;220;163;163m";
const MATCH: &str = "\x1b[38;2;38;139;210m";
const RESET: &str = "\x1b[39m";

#[test]
fn colors_of_the_tags() {
    assert_eq!(Type::Number.to_color(), Rgb { r: 220, g: 163, b: 163 });
    assert_eq!(Type::Match.to_color(), Rgb { r: 38, g: 139, b: 210 });
    assert_eq!(Type::Plain.to_color(), Rgb { r: 255, g: 255, b: 255 });
}

#[test]
fn render_of_an_unclassified_row_is_its_text_and_the_reset() {
    let row = Row::from("hello");
    assert_eq!(row.render(0, 5), format!("hello{}", RESET));
}

#[test]
fn render_cuts_the_range_down_to_the_row() {
    let row = Row::from("hello");
    assert_eq!(row.render(1, 3), format!("el{}", RESET));
    assert_eq!(row.render(3, 100), format!("lo{}", RESET));
    assert_eq!(row.render(5, 100), RESET);
    assert_eq!(row.render(7, 100), RESET);
    assert_eq!(row.render(4, 2), RESET);
    assert_eq!(row.render(0, 0), RESET);
}

#[test]
fn render_shows_a_tab_as_one_space() {
    let row = Row::from("a\tb");
    assert_eq!(row.render(0, 3), format!("a b{}", RESET));
}

#[test]
fn render_shows_every_grapheme_whole() {
    let row = Row::from("e\u{301}x");
    assert_eq!(row.render(0, 1), format!("e\u{301}{}", RESET));
    assert_eq!(row.render(0, 2), format!("e\u{301}x{}", RESET));
    assert_eq!(row.render(1, 2), format!("x{}", RESET));
    let row = Row::from("a\u{1F1F7}\u{1F1FA}b");
    assert_eq!(row.render(1, 2), format!("\u{1F1F7}\u{1F1FA}{}", RESET));
    assert_eq!(row.render(0, 3), format!("a\u{1F1F7}\u{1F1FA}b{}", RESET));
}

#[test]
fn render_shows_only_the_tab_otherwise() {
    let row = Row::from("\te\u{301}\t\tz");
    assert_eq!(row.len(), 5);
    assert_eq!(row.render(0, 5), format!(" e\u{301}  z{}", RESET));
    assert_eq!(row.render(1, 3), format!("e\u{301} {}", RESET));
}

#[test]
fn render_of_a_range_behind_the_row_or_empty_shows_nothing() {
    let row = Row::from("e\u{301}x");
    assert_eq!(row.len(), 2);
    assert_eq!(row.render(2, 5), RESET);
    assert_eq!(row.render(3, 5), RESET);
    assert_eq!(row.render(1, 1), RESET);
    assert_eq!(row.render(1, 0), RESET);
}

#[test]
fn render_counts_in_graphemes() {
    let row = Row::from("αβγδ");
    assert_eq!(row.render(1, 3), format!("βγ{}", RESET));
}

#[test]
fn render_never_shows_more_than_the_range() {
    for text in ["hello world", "e\u{301}\txα\u{1F1F7}\u{1F1FA}o\u{308}\u{332}z", "\t\t", ""] {
        let row = Row::from(text);
        for start in 0..13 {
            for end in start..13 {
                let out = row.render(start, end);
                let shown = out.strip_suffix(RESET).unwrap();
                let graphemes = UnicodeSegmentation::graphemes(shown, true).count();
                assert!(graphemes <= end - start);
                let within = end.min(row.len()).saturating_sub(start);
                assert_eq!(graphemes, within);
            }
        }
    }
}

#[test]
fn render_twice_gives_the_same() {
    let mut row = Row::from("a1 b22");
    row.highlight(Some("b"));
    assert_eq!(row.render(0, 6), row.render(0, 6));
    assert_eq!(row.render(2, 4), row.render(2, 4));
}

#[test]
fn highlight_marks_the_search_word() {
    let mut row = Row::from("hello world");
    row.highlight(Some("lo"));
    assert_eq!(row.render(0, 11), format!("hel{}lo{} world{}", MATCH, WHITE, RESET));
}

#[test]
fn highlight_tags_the_match_and_no_number() {
    let tags = classify("hello world", Some("lo"));
    assert_eq!(tags.len(), 11);
    for (i, tag) in tags.iter().enumerate() {
        if i == 3 || i == 4 {
            assert_eq!(*tag, Type::Match);
        } else {
            assert_eq!(*tag, Type::Plain);
        }
    }
}

#[test]
fn highlight_marks_numbers() {
    let mut row = Row::from("a 12.5 b");
    row.highlight(None);
    assert_eq!(row.render(0, 8), format!("a {}12.5{} b{}", NUMBER, WHITE, RESET));
}

#[test]
fn render_starts_with_a_marker_where_the_first_grapheme_is_not_plain() {
    let mut row = Row::from("42");
    row.highlight(None);
    assert_eq!(row.render(0, 2), format!("{}42{}", NUMBER, RESET));
    assert_eq!(row.render(1, 2), format!("{}2{}", NUMBER, RESET));
}

#[test]
fn render_keeps_the_tags_of_the_last_classification() {
    let mut row = Row::from("1a");
    row.highlight(None);
    row.insert(0, 'x');
    assert_eq!(row.render(0, 3), format!("{}x{}1a{}", NUMBER, WHITE, RESET));
    row.highlight(None);
    assert_eq!(row.render(0, 3), format!("x1a{}", RESET));
}

#[test]
fn classify_numbers_start_at_a_token() {
    assert_eq!(classify("12", None), vec![N, N]);
    assert_eq!(classify("a12", None), vec![P, P, P]);
    assert_eq!(classify("a 12", None), vec![P, P, N, N]);
    assert_eq!(classify("(3)", None), vec![P, N, P]);
    assert_eq!(classify("1.5", None), vec![N, N, N]);
    assert_eq!(classify("1..5", None), vec![N, N, N, N]);
    assert_eq!(classify(".5", None), vec![P, N]);
    assert_eq!(classify("a.5", None), vec![P, P, N]);
    assert_eq!(classify("1a2", None), vec![N, P, P]);
    assert_eq!(classify("1.a", None), vec![N, N, P]);
    assert_eq!(classify("x\t7", None), vec![P, P, N]);
    assert_eq!(classify("", None), Vec::<Type>::new());
}

#[test]
fn classify_gives_one_tag_to_each_grapheme() {
    assert_eq!(classify("e\u{301} 1", None), vec![P, P, N]);
    assert_eq!(classify("αβ7", None), vec![P, P, P]);
}

#[test]
fn classify_match_overrides_number() {
    assert_eq!(classify("123", Some("2")), vec![N, M, P]);
    assert_eq!(classify("1 23", Some("2")), vec![N, P, M, P]);
    assert_eq!(classify("12 34", Some("12")), vec![M, M, P, N, N]);
}

#[test]
fn classify_matches_do_not_overlap() {
    assert_eq!(classify("aaa", Some("aa")), vec![M, M, P]);
    assert_eq!(classify("aaaa", Some("aa")), vec![M, M, M, M]);
    assert_eq!(classify("abab ab", Some("ab")), vec![M, M, M, M, P, M, M]);
}

#[test]
fn classify_with_a_word_that_does_not_occur() {
    assert_eq!(classify("a 1", Some("zz")), vec![P, P, N]);
}

#[test]
fn classify_with_the_empty_word_marks_no_match() {
    assert_eq!(classify("a 1", Some("")), vec![P, P, N]);
}

#[test]
fn classify_does_not_match_a_part_of_a_grapheme() {
    assert_eq!(classify("e\u{301}", Some("e")), vec![P]);
    assert_eq!(classify("xe\u{301}e", Some("e")), vec![P, P, M]);
    assert_eq!(classify("e\u{301}", Some("\u{301}")), vec![P]);
    assert_eq!(classify("e\u{301}", None), vec![P]);
}

#[test]
fn highlight_of_a_part_of_a_grapheme_marks_nothing() {
    let mut row = Row::from("e\u{301}");
    row.highlight(Some("e"));
    assert_eq!(row.render(0, 1), format!("e\u{301}{}", RESET));
    row.highlight(Some("e\u{301}"));
    assert_eq!(row.render(0, 1), format!("{}e\u{301}{}", MATCH, RESET));
}

#[test]
fn classify_counts_a_match_in_graphemes() {
    assert_eq!(classify("xe\u{301}y", Some("e\u{301}")), vec![P, M, P]);
    assert_eq!(classify("αβγ", Some("βγ")), vec![P, M, M]);
}
