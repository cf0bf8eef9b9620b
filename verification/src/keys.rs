//! The key events the state machine consumes, as plain data.

use vstd::prelude::*;

verus! {

/// A single key press, already decoded from whatever the terminal
/// backend delivers. The state machine never sees modifier state:
/// printable input arrives as `Char`.
#[derive(Copy, Clone, Debug, PartialEq, Eq, Structural)]
pub enum Key {
    Char(char),
    Enter,
    Esc,
    Tab,
    BackTab,
    Up,
    Down,
    Left,
    Right,
    Backspace,
}

} // verus!
