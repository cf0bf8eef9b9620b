//! Character-level edits on `String` buffers.
//!
//! Every editable buffer in the library (form fields, the body editor,
//! the URL entry) grows and shrinks at its end: typing appends one
//! character, backspace removes one.

use vstd::prelude::*;

verus! {

/// Relies on String::push: appends the given char to the end of the
/// string.
#[verifier::external_body]
pub fn push_char(s: &mut String, c: char)
    ensures
        final(s)@ == old(s)@.push(c),
{
    s.push(c)
}

/// Relies on String::pop: removes the last character from the string
/// and returns it, or returns None and leaves the string untouched if
/// it is empty.
#[verifier::external_body]
pub fn pop_char(s: &mut String) -> (r: Option<char>)
    ensures
        old(s)@.len() == 0 ==> final(s)@ == old(s)@ && r is None,
        old(s)@.len() > 0 ==> final(s)@ == old(s)@.drop_last() && r == Some(
            old(s)@.last(),
        ),
{
    s.pop()
}

/// Applies one editing key to a text buffer: a printable character is
/// appended, backspace drops the last character, every other key
/// leaves the buffer alone.
pub open spec fn edit_text(t: Seq<char>, key: crate::keys::Key) -> Seq<char> {
    match key {
        crate::keys::Key::Char(c) => t.push(c),
        crate::keys::Key::Backspace => if t.len() == 0 {
            t
        } else {
            t.drop_last()
        },
        _ => t,
    }
}

/// Performs `edit_text` on a real buffer.
pub fn apply_edit(s: &mut String, key: crate::keys::Key)
    ensures
        final(s)@ == edit_text(old(s)@, key),
{
    match key {
        crate::keys::Key::Char(c) => push_char(s, c),
        crate::keys::Key::Backspace => {
            let _ = pop_char(s);
        },
        _ => {},
    }
}

} // verus!
