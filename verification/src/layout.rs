//! Text placement on the terminal grid.
//!
//! A text is placed by a reference column and an alignment: left alignment
//! writes at the column itself, centering backs up by half the text's
//! display width, right alignment by the whole width, never past column
//! zero. A text too wide for the coordinate space is reported, not
//! truncated.

use vstd::prelude::*;

verus! {

/// How a text is anchored to its reference column.
#[derive(Clone, Copy, Debug, PartialEq, Eq, Structural)]
pub enum TextAlignment {
    /// The text starts at the column.
    Left,
    /// The text is centered on the column.
    Center,
    /// The text ends at the column.
    Right,
}

/// The display width in terminal columns that
/// `unicode_width::UnicodeWidthStr::width` assigns to a text, a function of
/// its characters alone.
pub uninterp spec fn display_width(s: Seq<char>) -> nat;

/// Relies on unicode_width::UnicodeWidthStr::width: the string's displayed
/// width in columns, treating ambiguous-width characters as one column; a
/// sum over the characters, so the empty string has width zero.
#[verifier::external_body]
fn text_width(s: &str) -> (w: usize)
    ensures
        w as nat == display_width(s@),
        s@.len() == 0 ==> w == 0,
{
    unicode_width::UnicodeWidthStr::width(s)
}

/// The column a text of the given width starts at under an alignment,
/// stopping at column zero.
pub open spec fn spec_aligned_col(col: int, width: int, alignment: TextAlignment) -> int {
    match alignment {
        TextAlignment::Left => col,
        TextAlignment::Center => if col - width / 2 < 0 {
            0
        } else {
            col - width / 2
        },
        TextAlignment::Right => if col - width < 0 {
            0
        } else {
            col - width
        },
    }
}

/// Where a text goes on the grid: the aligned start column and the row —
/// or nothing when the text's display width exceeds the addressable
/// coordinate space, a fatal condition for the caller to report.
pub fn text_placement(text: &str, position: (u16, u16), alignment: TextAlignment) -> (r: Option<
    (u16, u16),
>)
    ensures
        r is Some <==> display_width(text@) <= u16::MAX as nat,
        r is Some ==> (r->0).0 as int == spec_aligned_col(
            position.0 as int,
            display_width(text@) as int,
            alignment,
        ) && (r->0).1 == position.1,
{
    let w = text_width(text);
    if w > u16::MAX as usize {
        None
    } else {
        let width = w as u16;
        let (col, row) = position;
        let start = match alignment {
            TextAlignment::Left => col,
            TextAlignment::Center => col.saturating_sub(width / 2),
            TextAlignment::Right => col.saturating_sub(width),
        };
        Some((start, row))
    }
}

} // verus!
