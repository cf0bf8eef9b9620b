//! The response panel: the message text and a two-axis scroll
//! position over it.

use vstd::prelude::*;
use crate::keys::Key;
use crate::lines::{count_lines, line_count};

verus! {

/// Clamps a count into the range a `u16` scroll position can hold.
pub open spec fn sat_u16(i: int) -> int {
    if i < 0 {
        0
    } else if i > 0xffff {
        0xffff
    } else {
        i
    }
}

/// The lowest line that can sit at the top of the view: one less than
/// the number of lines, clamped to the scroll range.
pub open spec fn max_scroll(s: Seq<char>) -> int {
    sat_u16(line_count(s) - 1)
}

/// Computes `max_scroll` for a real text.
pub fn max_scroll_of(text: &str) -> (r: u16)
    ensures
        r as int == max_scroll(text@),
{
    proof {
        crate::lines::lemma_newline_count_le(text@, text@.len() as int);
    }
    let lines = count_lines(text);
    let m = if lines == 0 {
        0
    } else {
        lines - 1
    };
    if m > 0xffff {
        0xffff
    } else {
        m as u16
    }
}

/// The panel showing the latest response text.
pub struct OutputComponent {
    pub message: String,
    pub scroll_x: u16,
    pub scroll_y: u16,
}

/// The mathematical content of the response panel.
pub ghost struct OutputModel {
    pub message: Seq<char>,
    pub scroll_x: int,
    pub scroll_y: int,
}

impl View for OutputComponent {
    type V = OutputModel;

    open spec fn view(&self) -> OutputModel {
        OutputModel {
            message: self.message@,
            scroll_x: self.scroll_x as int,
            scroll_y: self.scroll_y as int,
        }
    }
}

/// The response panel after one key: vertical scrolling is bounded by
/// the message's line count, horizontal scrolling by zero on the left
/// and the scroll range on the right. Every other key leaves the
/// panel alone.
pub open spec fn output_step(m: OutputModel, key: Key) -> OutputModel {
    match key {
        Key::Up | Key::Char('k') | Key::Char('K') => OutputModel {
            scroll_y: if m.scroll_y > 0 {
                m.scroll_y - 1
            } else {
                m.scroll_y
            },
            ..m
        },
        Key::Down | Key::Char('j') | Key::Char('J') => OutputModel {
            scroll_y: if m.scroll_y < max_scroll(m.message) {
                m.scroll_y + 1
            } else {
                m.scroll_y
            },
            ..m
        },
        Key::Left | Key::Char('h') | Key::Char('H') => OutputModel {
            scroll_x: if m.scroll_x > 0 {
                m.scroll_x - 1
            } else {
                m.scroll_x
            },
            ..m
        },
        Key::Right | Key::Char('l') | Key::Char('L') => OutputModel {
            scroll_x: sat_u16(m.scroll_x + 1),
            ..m
        },
        _ => m,
    }
}

impl OutputComponent {
    /// An empty response panel, scrolled to the origin.
    pub fn new() -> (r: OutputComponent)
        ensures
            r@.message.len() == 0,
            r@.scroll_x == 0,
            r@.scroll_y == 0,
    {
        OutputComponent { message: String::new(), scroll_x: 0, scroll_y: 0 }
    }

    /// Applies one key to the panel. The result says whether the key
    /// asked for the response to be opened in an external editor,
    /// which is the one thing this panel cannot do itself.
    pub fn keybinds(&mut self, key: Key) -> (open_editor: bool)
        ensures
            final(self)@ == output_step(old(self)@, key),
            open_editor == (key == Key::Char('e')),
    {
        match key {
            Key::Up | Key::Char('k') | Key::Char('K') => {
                if self.scroll_y > 0 {
                    self.scroll_y = self.scroll_y - 1;
                }
            },
            Key::Down | Key::Char('j') | Key::Char('J') => {
                let max = max_scroll_of(self.message.as_str());
                if self.scroll_y < max {
                    self.scroll_y = self.scroll_y + 1;
                }
            },
            Key::Left | Key::Char('h') | Key::Char('H') => {
                if self.scroll_x > 0 {
                    self.scroll_x = self.scroll_x - 1;
                }
            },
            Key::Right | Key::Char('l') | Key::Char('L') => {
                if self.scroll_x < 0xffff {
                    self.scroll_x = self.scroll_x + 1;
                }
            },
            _ => {},
        }
        matches!(key, Key::Char('e'))
    }
}

} // verus!
