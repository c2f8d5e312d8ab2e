//! A grapheme-aware text buffer: rows of text addressed by user-perceived
//! character, a document of rows with editing and search, and the per-grapheme
//! classification that drives display colouring.

pub mod document;
pub mod editor;
pub mod grapheme;
pub mod highlight;
pub mod position;
pub mod row;
pub mod search;
pub mod terminal;
pub mod text;

pub use document::Document;
pub use position::{Position, SearchDirection};
pub use row::Row;
