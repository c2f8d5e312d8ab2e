//! Addresses in the buffer and directions of search.

use vstd::prelude::*;

verus! {

/// A place in the buffer: a grapheme index within a line, and the index of
/// the line. Both count from zero, and both may be one past the end, which
/// stands for the place where text is appended.
#[derive(Clone, Copy, Debug, PartialEq, Eq, Structural)]
pub struct Position {
    pub column: usize,
    pub row: usize,
}

impl Default for Position {
    fn default() -> (origin: Self)
        ensures
            origin == (Position { column: 0, row: 0 }),
    {
        Position { column: 0, row: 0 }
    }
}

/// The order in which a search goes through a line and through the buffer.
#[derive(Clone, Copy, Debug, PartialEq, Eq, Structural)]
pub enum SearchDirection {
    Forward,
    Backward,
}

} // verus!
