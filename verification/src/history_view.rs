//! The full-screen history panel: a snapshot of the recorded history
//! as text, and a two-axis scroll position over it. Vertical
//! scrolling wraps around at both ends.

use vstd::prelude::*;
use crate::keys::Key;
use crate::output::{max_scroll, max_scroll_of, sat_u16};

verus! {

/// The panel showing the request history snapshot.
pub struct HistoryComponent {
    pub history: String,
    pub scroll_x: u16,
    pub scroll_y: u16,
}

/// The mathematical content of the history panel.
pub ghost struct HistoryModel {
    pub history: Seq<char>,
    pub scroll_x: int,
    pub scroll_y: int,
}

impl View for HistoryComponent {
    type V = HistoryModel;

    open spec fn view(&self) -> HistoryModel {
        HistoryModel {
            history: self.history@,
            scroll_x: self.scroll_x as int,
            scroll_y: self.scroll_y as int,
        }
    }
}

/// The history panel after one key: vertical scrolling wraps from the
/// top line to the last and back, horizontal scrolling is bounded as
/// on the response panel. Every other key leaves the panel alone.
pub open spec fn history_step(m: HistoryModel, key: Key) -> HistoryModel {
    match key {
        Key::Up | Key::Char('k') | Key::Char('K') => HistoryModel {
            scroll_y: if m.scroll_y > 0 {
                m.scroll_y - 1
            } else {
                max_scroll(m.history)
            },
            ..m
        },
        Key::Down | Key::Char('j') | Key::Char('J') => HistoryModel {
            scroll_y: if m.scroll_y < max_scroll(m.history) {
                m.scroll_y + 1
            } else {
                0
            },
            ..m
        },
        Key::Left | Key::Char('h') | Key::Char('H') => HistoryModel {
            scroll_x: if m.scroll_x > 0 {
                m.scroll_x - 1
            } else {
                m.scroll_x
            },
            ..m
        },
        Key::Right | Key::Char('l') | Key::Char('L') => HistoryModel {
            scroll_x: sat_u16(m.scroll_x + 1),
            ..m
        },
        _ => m,
    }
}

impl HistoryComponent {
    /// A history panel over the given snapshot text, scrolled to the
    /// origin.
    pub fn new_with_history(history: String) -> (r: HistoryComponent)
        ensures
            r@.history == history@,
            r@.scroll_x == 0,
            r@.scroll_y == 0,
    {
        HistoryComponent { history, scroll_x: 0, scroll_y: 0 }
    }

    /// Applies one key to the panel.
    pub fn keybinds(&mut self, key: Key)
        ensures
            final(self)@ == history_step(old(self)@, key),
    {
        match key {
            Key::Up | Key::Char('k') | Key::Char('K') => {
                if self.scroll_y > 0 {
                    self.scroll_y = self.scroll_y - 1;
                } else {
                    self.scroll_y = max_scroll_of(self.history.as_str());
                }
            },
            Key::Down | Key::Char('j') | Key::Char('J') => {
                let max = max_scroll_of(self.history.as_str());
                if self.scroll_y < max {
                    self.scroll_y = self.scroll_y + 1;
                } else {
                    self.scroll_y = 0;
                }
            },
            Key::Left | Key::Char('h') | Key::Char('H') => {
                if self.scroll_x > 0 {
                    self.scroll_x = self.scroll_x - 1;
                }
            },
            Key::Right | Key::Char('l') | Key::Char('L') => {
                if self.scroll_x < 0xffff {
                    self.scroll_x = self.scroll_x + 1;
                }
            },
            _ => {},
        }
    }
}

} // verus!
