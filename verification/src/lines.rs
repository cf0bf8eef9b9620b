//! Counting the display lines of a text, the way a renderer splits it:
//! every newline ends a line, and a final fragment without a trailing
//! newline still counts as one.

use vstd::prelude::*;

verus! {

/// How many newline characters sit among the first `n` characters of
/// `s`.
pub open spec fn newline_count(s: Seq<char>, n: int) -> int
    decreases n,
{
    if n <= 0 {
        0
    } else {
        newline_count(s, n - 1) + if s[n - 1] == '\n' {
            1int
        } else {
            0int
        }
    }
}

/// The number of display lines of `s`: one per newline, plus one for
/// a trailing fragment that has no newline of its own. The empty text
/// has no lines.
pub open spec fn line_count(s: Seq<char>) -> int {
    if s.len() == 0 {
        0
    } else if s.last() == '\n' {
        newline_count(s, s.len() as int)
    } else {
        newline_count(s, s.len() as int) + 1
    }
}

/// There are never more newlines than characters.
pub proof fn lemma_newline_count_le(s: Seq<char>, n: int)
    requires
        0 <= n <= s.len(),
    ensures
        0 <= newline_count(s, n) <= n,
    decreases n,
{
    if n > 0 {
        lemma_newline_count_le(s, n - 1);
    }
}

/// Counts the display lines of a text.
pub fn count_lines(text: &str) -> (r: usize)
    ensures
        r == line_count(text@),
{
    let len = text.unicode_len();
    if len == 0 {
        return 0;
    }
    let mut newlines: usize = 0;
    let mut i: usize = 0;
    while i < len
        invariant
            i <= len,
            len == text@.len(),
            newlines == newline_count(text@, i as int),
            newlines <= i,
        decreases len - i,
    {
        proof {
            lemma_newline_count_le(text@, i as int);
        }
        if text.get_char(i) == '\n' {
            newlines = newlines + 1;
        }
        i = i + 1;
    }
    proof {
        lemma_newline_count_le(text@, len as int);
    }
    if text.get_char(len - 1) == '\n' {
        newlines
    } else {
        proof {
            lemma_newline_count_le(text@, len - 1);
        }
        newlines + 1
    }
}

} // verus!
