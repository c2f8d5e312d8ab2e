//! What the buffer needs to know of the terminal: its size, and the escape
//! sequences that switch the foreground colour.

use crate::position::Position;
use crate::text::decimal;
use vstd::prelude::*;

verus! {

/// The size of the terminal, in character cells.
#[derive(Clone, Copy, Debug, PartialEq, Eq, Structural)]
pub struct Size {
    pub width: u16,
    pub height: u16,
}

/// A colour by its red, green and blue parts.
#[derive(Clone, Copy, Debug, PartialEq, Eq, Structural)]
pub struct Rgb {
    pub r: u8,
    pub g: u8,
    pub b: u8,
}

/// The cell of the screen for a place on it. The terminal counts its cells
/// from one, and in sixteen bits: a place further out wraps around.
pub fn cursor_cell(position: &Position) -> (cell: (u16, u16))
    ensures
        cell.0 == position.column.saturating_add(1) % 0x10000,
        cell.1 == position.row.saturating_add(1) % 0x10000,
{
    let x = position.column.saturating_add(1) % 0x10000;
    let y = position.row.saturating_add(1) % 0x10000;
    (x as u16, y as u16)
}

/// The escape sequence that sets the foreground to `color`:
/// `ESC [ 38 ; 2 ; r ; g ; b m`.
pub open spec fn fg_escape(color: Rgb) -> Seq<char> {
    seq!['\x1b', '[', '3', '8', ';', '2', ';'] + decimal(color.r as nat) + seq![';'] + decimal(
        color.g as nat,
    ) + seq![';'] + decimal(color.b as nat) + seq!['m']
}

/// The escape sequence that puts the foreground back to the terminal's
/// default: `ESC [ 39 m`.
pub open spec fn fg_reset_escape() -> Seq<char> {
    seq!['\x1b', '[', '3', '9', 'm']
}

/// Formats `termion::color::Fg` of a `termion::color::Rgb`. termion writes the
/// true-colour sequence with the three parts in decimal, as `fg_escape` spells
/// it out.
#[verifier::external_body]
pub(crate) fn foreground(color: Rgb) -> (sequence: String)
    ensures
        sequence@ == fg_escape(color),
{
    format!("{}", termion::color::Fg(termion::color::Rgb(color.r, color.g, color.b)))
}

/// Formats `termion::color::Fg` of `termion::color::Reset`, for which termion
/// writes a constant string.
#[verifier::external_body]
pub(crate) fn foreground_reset() -> (sequence: String)
    ensures
        sequence@ == fg_reset_escape(),
{
    format!("{}", termion::color::Fg(termion::color::Reset))
}

} // verus!
