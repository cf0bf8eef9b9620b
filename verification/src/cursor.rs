//! Maps a linear edit-buffer cursor offset to a wrapped (row, column)
//! grid position, given the width available for text.
//!
//! The walk is a greedy character wrap, not a word wrap: a caret drawn
//! at the returned position lines up exactly with text rendered under
//! the same policy.

use vstd::prelude::*;

verus! {

/// One step of the wrap walk: where the position moves after the
/// character `c` is consumed at position `pos`. A newline, or a column
/// that has reached `width - 2`, starts a fresh row.
pub open spec fn wrap_step(pos: (int, int), c: char, width: int) -> (int, int) {
    if c == '\n' || pos.1 >= width - 2 {
        (pos.0 + 1, 0)
    } else {
        (pos.0, pos.1 + 1)
    }
}

/// The grid position reached after walking the first `n` characters of
/// `text` with wrap width `width`, starting from the origin.
pub open spec fn wrap_pos(text: Seq<char>, n: int, width: int) -> (int, int)
    decreases n,
{
    if n <= 0 {
        (0, 0)
    } else {
        wrap_step(wrap_pos(text, n - 1, width), text[n - 1], width)
    }
}

/// The walked position stays within bounds: the row never exceeds the
/// number of characters walked, and the column stays below `width - 1`.
pub proof fn lemma_wrap_pos_bounds(text: Seq<char>, n: int, width: int)
    requires
        width > 2,
        n >= 0,
    ensures
        0 <= wrap_pos(text, n, width).0 <= n,
        0 <= wrap_pos(text, n, width).1 <= width - 2,
    decreases n,
{
    if n > 0 {
        lemma_wrap_pos_bounds(text, n - 1, width);
    }
}

/// The (row, column) grid position of a caret sitting at character
/// offset `offset` inside `text`, for a text area `width` columns wide.
/// An offset beyond the end of the buffer is clamped to the end.
///
/// A width of 2 or less leaves no room for text and is a precondition
/// violation.
pub fn cursor_position(text: &str, offset: usize, width: usize) -> (pos: (usize, usize))
    requires
        width > 2,
    ensures
        ({
            let n = if offset <= text@.len() {
                offset as int
            } else {
                text@.len() as int
            };
            pos.0 == wrap_pos(text@, n, width as int).0 && pos.1 == wrap_pos(
                text@,
                n,
                width as int,
            ).1
        }),
{
    let len = text.unicode_len();
    let n: usize = if offset <= len {
        offset
    } else {
        len
    };
    let mut row: usize = 0;
    let mut col: usize = 0;
    let mut i: usize = 0;
    while i < n
        invariant
            width > 2,
            i <= n,
            n <= len,
            len == text@.len(),
            row as int == wrap_pos(text@, i as int, width as int).0,
            col as int == wrap_pos(text@, i as int, width as int).1,
        decreases n - i,
    {
        proof {
            lemma_wrap_pos_bounds(text@, i as int, width as int);
        }
        let c = text.get_char(i);
        if c == '\n' || col >= width - 2 {
            row = row + 1;
            col = 0;
        } else {
            col = col + 1;
        }
        i = i + 1;
    }
    (row, col)
}

} // verus!
