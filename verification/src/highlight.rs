//! The classification of graphemes that display colouring goes by.
//!
//! Every grapheme of a line gets one tag. Digits that start a token, and the
//! digits and dots that follow them, are numbers; the graphemes of each
//! occurrence of the active search word are matches, whatever they would be
//! otherwise.

use crate::grapheme::{grapheme_clusters, split_graphemes, views};
use crate::search::{first_match, lemma_first_in_is_first_match, scan_forward};
use crate::terminal::Rgb;
use vstd::prelude::*;

verus! {

/// What a grapheme is shown as.
#[derive(Clone, Copy, Debug, PartialEq, Eq, Structural)]
pub enum Type {
    Plain,
    Number,
    Match,
}

impl Type {
    /// The colour a grapheme with this tag is drawn in.
    pub open spec fn color(self) -> Rgb {
        match self {
            Type::Number => Rgb { r: 220, g: 163, b: 163 },
            Type::Match => Rgb { r: 38, g: 139, b: 210 },
            Type::Plain => Rgb { r: 255, g: 255, b: 255 },
        }
    }

    pub fn to_color(&self) -> (color: Rgb)
        ensures
            color == self.color(),
    {
        match self {
            Type::Number => Rgb { r: 220, g: 163, b: 163 },
            Type::Match => Rgb { r: 38, g: 139, b: 210 },
            Type::Plain => Rgb { r: 255, g: 255, b: 255 },
        }
    }
}

/// An ASCII decimal digit.
pub open spec fn is_ascii_digit(c: char) -> bool {
    '0' <= c <= '9'
}

/// An ASCII punctuation character.
pub open spec fn is_ascii_punctuation(c: char) -> bool {
    ||| '!' <= c <= '/'
    ||| ':' <= c <= '@'
    ||| '[' <= c <= '`'
    ||| '{' <= c <= '~'
}

/// An ASCII whitespace character: space, tab, line feed, form feed or
/// carriage return.
pub open spec fn is_ascii_whitespace(c: char) -> bool {
    c == ' ' || c == '\t' || c == '\n' || c == '\x0c' || c == '\r'
}

/// The grapheme is a single ASCII digit.
pub open spec fn is_digit(g: Seq<char>) -> bool {
    g.len() == 1 && is_ascii_digit(g[0])
}

/// The grapheme is a full stop.
pub open spec fn is_dot(g: Seq<char>) -> bool {
    g.len() == 1 && g[0] == '.'
}

/// The grapheme is a single ASCII punctuation or whitespace character: what
/// parts one token from the next.
pub open spec fn is_separator(g: Seq<char>) -> bool {
    g.len() == 1 && (is_ascii_punctuation(g[0]) || is_ascii_whitespace(g[0]))
}

/// Whether grapheme `i` lies inside one of the matches that a scan from
/// `cursor` finds. The scan takes the first place at or after the cursor at
/// which the graphemes of the line are those of `query`, counts them as a
/// match, and goes on behind them, so that no two matches overlap. A query
/// without graphemes matches nowhere.
pub open spec fn covered(
    clusters: Seq<Seq<char>>,
    query: Seq<Seq<char>>,
    cursor: int,
    i: int,
) -> bool
    decreases clusters.len() - cursor,
{
    if query.len() == 0 {
        false
    } else {
        match first_match(clusters, query, cursor) {
            Some(m) => {
                ||| m <= i < m + query.len()
                ||| (cursor <= m && m + query.len() <= clusters.len() && covered(
                    clusters,
                    query,
                    m + query.len(),
                    i,
                ))
            },
            None => false,
        }
    }
}

/// Whether grapheme `i` lies inside a match of the active word: inside one
/// of the places, taken from left to right without overlap, at which the
/// graphemes of the line are the graphemes of the word.
pub open spec fn in_match(clusters: Seq<Seq<char>>, word: Option<Seq<char>>, i: int) -> bool {
    match word {
        Some(query) => covered(clusters, grapheme_clusters(query), 0, i),
        None => false,
    }
}

/// The tag of grapheme `i`.
pub open spec fn tag_at(clusters: Seq<Seq<char>>, word: Option<Seq<char>>, i: int) -> Type
    decreases i,
{
    if i < 0 || i >= clusters.len() {
        Type::Plain
    } else if in_match(clusters, word, i) {
        Type::Match
    } else if is_digit(clusters[i]) && (i == 0 || is_separator(clusters[i - 1]) || tag_at(
        clusters,
        word,
        i - 1,
    ) == Type::Number) {
        Type::Number
    } else if is_dot(clusters[i]) && i > 0 && tag_at(clusters, word, i - 1) == Type::Number {
        Type::Number
    } else {
        Type::Plain
    }
}

/// The tags of a line, one for each of its graphemes.
pub open spec fn tags_of(clusters: Seq<Seq<char>>, word: Option<Seq<char>>) -> Seq<Type> {
    Seq::new(clusters.len(), |i: int| tag_at(clusters, word, i))
}

/// The characters of the active word, if there is one.
pub open spec fn word_chars(word: Option<&str>) -> Option<Seq<char>> {
    match word {
        Some(w) => Some(w@),
        None => None,
    }
}

/// The character a grapheme consists of, if it is a single one.
pub open spec fn sole(g: Seq<char>) -> Option<char> {
    if g.len() == 1 {
        Some(g[0])
    } else {
        None
    }
}

fn sole_char(piece: &str) -> (c: Option<char>)
    ensures
        c == sole(piece@),
{
    if piece.unicode_len() == 1 {
        Some(piece.get_char(0))
    } else {
        None
    }
}

fn digit_char(c: Option<char>) -> (yes: bool)
    ensures
        yes == (c matches Some(d) && is_ascii_digit(d)),
{
    match c {
        Some(d) => d >= '0' && d <= '9',
        None => false,
    }
}

fn separator_char(c: Option<char>) -> (yes: bool)
    ensures
        yes == (c matches Some(d) && (is_ascii_punctuation(d) || is_ascii_whitespace(d))),
{
    match c {
        Some(d) => {
            (d >= '!' && d <= '/') || (d >= ':' && d <= '@') || (d >= '[' && d <= '`') || (d >= '{'
                && d <= '~') || d == ' ' || d == '\t' || d == '\n' || d == '\x0c' || d == '\r'
        },
        None => false,
    }
}

/// For each grapheme of `parts`, whether it lies inside a match of `query`.
fn mark_matches(parts: &Vec<String>, query: &Vec<String>) -> (marks: Vec<bool>)
    ensures
        marks.len() == parts.len(),
        forall|i: int|
            0 <= i < parts.len() ==> marks[i] == covered(views(parts@), views(query@), 0, i),
{
    let ghost clusters = views(parts@);
    let ghost wanted = views(query@);
    let n = parts.len();
    let width = query.len();
    let mut marks: Vec<bool> = Vec::new();
    while marks.len() < n
        invariant
            marks.len() <= n,
            forall|i: int| 0 <= i < marks.len() ==> !marks[i],
        decreases n - marks.len(),
    {
        marks.push(false);
    }
    if width == 0 {
        return marks;
    }
    let mut cursor: usize = 0;
    loop
        invariant_except_break
            cursor <= n,
            forall|i: int|
                0 <= i < n ==> #[trigger] covered(clusters, wanted, 0, i) == (marks[i] || covered(
                    clusters,
                    wanted,
                    cursor as int,
                    i,
                )),
        invariant
            clusters == views(parts@),
            wanted == views(query@),
            n == parts.len(),
            marks.len() == n,
            width == query.len(),
            width > 0,
        ensures
            forall|i: int| 0 <= i < n ==> marks[i] == #[trigger] covered(clusters, wanted, 0, i),
        decreases n - cursor,
    {
        let found = scan_forward(parts, query, cursor, n);
        proof {
            lemma_first_in_is_first_match(clusters, wanted, cursor as int, found);
        }
        match found {
            None => {
                break ;
            },
            Some(m) => {
                let stop = if width <= n - m {
                    m + width
                } else {
                    n
                };
                let ghost before = marks@;
                let mut k = m;
                while k < stop
                    invariant
                        m <= k <= stop <= n,
                        marks.len() == n,
                        before.len() == n,
                        forall|i: int|
                            0 <= i < n ==> #[trigger] marks[i] == (before[i] || m <= i < k),
                    decreases stop - k,
                {
                    marks.set(k, true);
                    k += 1;
                }
                assert forall|i: int| 0 <= i < n implies covered(clusters, wanted, cursor as int, i)
                    == (m <= i < m + width || (m + width <= n && covered(
                    clusters,
                    wanted,
                    m + width,
                    i,
                ))) by {}
                if width > n - m {
                    break ;
                }
                cursor = m + width;
            },
        }
    }
    marks
}

/// The tags of the graphemes `parts`, given which of them lie inside a match.
fn tag_graphemes(parts: &Vec<String>, marks: &Vec<bool>, Ghost(word): Ghost<Option<Seq<char>>>) -> (tags:
    Vec<Type>)
    requires
        marks.len() == parts.len(),
        forall|i: int| 0 <= i < parts.len() ==> marks[i] == in_match(views(parts@), word, i),
    ensures
        tags@ == tags_of(views(parts@), word),
{
    let ghost clusters = views(parts@);
    let mut tags: Vec<Type> = Vec::new();
    let mut before_is_separator = true;
    let mut before_is_number = false;
    let mut i: usize = 0;
    while i < parts.len()
        invariant
            i <= parts.len(),
            marks.len() == parts.len(),
            clusters == views(parts@),
            forall|k: int| 0 <= k < parts.len() ==> marks[k] == in_match(clusters, word, k),
            tags.len() == i,
            forall|k: int| 0 <= k < i ==> tags[k] == tag_at(clusters, word, k),
            before_is_separator == (i == 0 || is_separator(clusters[i - 1])),
            before_is_number == (i > 0 && tag_at(clusters, word, i - 1) == Type::Number),
        decreases parts.len() - i,
    {
        let c = sole_char(parts[i].as_str());
        let tag = if marks[i] {
            Type::Match
        } else if digit_char(c) && (before_is_separator || before_is_number) {
            Type::Number
        } else if c == Some('.') && before_is_number {
            Type::Number
        } else {
            Type::Plain
        };
        tags.push(tag);
        before_is_separator = separator_char(c);
        before_is_number = tag == Type::Number;
        i += 1;
    }
    assert(tags@ =~= tags_of(clusters, word));
    tags
}

/// Classifies the graphemes of `text`: numbers by the rule for tokens, and
/// matches wherever the graphemes of `word` stand among them, the places
/// taken from left to right without overlap.
pub fn classify(text: &str, word: Option<&str>) -> (tags: Vec<Type>)
    ensures
        tags@ == tags_of(grapheme_clusters(text@), word_chars(word)),
{
    let parts = split_graphemes(text);
    let marks = match word {
        Some(w) => {
            let query = split_graphemes(w);
            mark_matches(&parts, &query)
        },
        None => {
            let mut marks: Vec<bool> = Vec::new();
            while marks.len() < parts.len()
                invariant
                    marks.len() <= parts.len(),
                    forall|i: int| 0 <= i < marks.len() ==> !marks[i],
                decreases parts.len() - marks.len(),
            {
                marks.push(false);
            }
            marks
        },
    };
    tag_graphemes(&parts, &marks, Ghost(word_chars(word)))
}

} // verus!
