//! The ordered, mutable collection of request headers, with a bounded
//! selection.
//!
//! The selection invariant: whenever the list is non-empty the
//! selected index is a valid index into it; while it is empty the
//! index is pinned to zero. Every operation states that it preserves
//! this invariant, so no sequence of additions and deletions can leave
//! the selection dangling.

use vstd::prelude::*;
use crate::cycle::{cycle_next, cycle_prev, next_index, prev_index};

verus! {

/// One request header: a name, its value, and the value it had before
/// the last edit.
pub struct RequestHeader {
    pub key: String,
    pub value: String,
    pub previous_value: String,
}

/// The mathematical content of a header: its three texts.
pub ghost struct HeaderModel {
    pub key: Seq<char>,
    pub value: Seq<char>,
    pub previous_value: Seq<char>,
}

impl View for RequestHeader {
    type V = HeaderModel;

    open spec fn view(&self) -> HeaderModel {
        HeaderModel {
            key: self.key@,
            value: self.value@,
            previous_value: self.previous_value@,
        }
    }
}

impl RequestHeader {
    /// A header built from its three texts.
    pub fn new(key: String, value: String, previous_value: String) -> (r: RequestHeader)
        ensures
            r@ == (HeaderModel { key: key@, value: value@, previous_value: previous_value@ }),
    {
        RequestHeader { key, value, previous_value }
    }
}

/// Why a header operation was refused.
#[derive(Copy, Clone, Debug, PartialEq, Eq, Structural)]
pub enum HeaderError {
    IndexOutOfRange,
}

/// The ordered header collection and its selection.
pub struct HeaderList {
    entries: Vec<RequestHeader>,
    selected: usize,
}

/// The mathematical content of a header list.
pub ghost struct HeaderListModel {
    pub entries: Seq<HeaderModel>,
    pub selected: int,
}

impl View for HeaderList {
    type V = HeaderListModel;

    closed spec fn view(&self) -> HeaderListModel {
        HeaderListModel {
            entries: self.entries@.map_values(|h: RequestHeader| h@),
            selected: self.selected as int,
        }
    }
}

impl HeaderListModel {
    /// The selection invariant: a valid index whenever the list is
    /// non-empty, zero while it is empty.
    pub open spec fn wf(self) -> bool {
        if self.entries.len() == 0 {
            self.selected == 0
        } else {
            0 <= self.selected < self.entries.len()
        }
    }

    /// The selection after deleting the entry at `index`: clamped to
    /// the last remaining index, or reset to zero when nothing is
    /// left.
    pub open spec fn clamped_after_delete(self, index: int) -> int {
        let new_len = self.entries.len() - 1;
        if new_len == 0 {
            0
        } else if self.selected >= new_len {
            new_len - 1
        } else {
            self.selected
        }
    }
}

/// One mutation of the header collection, as `add` and `delete`
/// perform it: an addition appends and leaves the selection alone, a
/// deletion at a valid index removes and clamps the selection, and a
/// deletion out of range changes nothing.
pub ghost enum HeaderOp {
    Add(HeaderModel),
    Delete(int),
}

/// The list after one operation.
pub open spec fn apply_op(m: HeaderListModel, op: HeaderOp) -> HeaderListModel {
    match op {
        HeaderOp::Add(h) => HeaderListModel { entries: m.entries.push(h), ..m },
        HeaderOp::Delete(i) => if 0 <= i < m.entries.len() {
            HeaderListModel {
                entries: m.entries.remove(i),
                selected: m.clamped_after_delete(i),
            }
        } else {
            m
        },
    }
}

/// The list after a whole sequence of operations, applied in order.
pub open spec fn apply_ops(m: HeaderListModel, ops: Seq<HeaderOp>) -> HeaderListModel
    decreases ops.len(),
{
    if ops.len() == 0 {
        m
    } else {
        apply_op(apply_ops(m, ops.drop_last()), ops.last())
    }
}

/// The selection invariant survives every sequence of additions and
/// deletions: starting from any well-formed list, the selected index
/// is still a valid index — or the list is empty — after the whole
/// sequence has run.
pub proof fn lemma_selection_valid_under_all_ops(m: HeaderListModel, ops: Seq<HeaderOp>)
    requires
        m.wf(),
    ensures
        apply_ops(m, ops).wf(),
    decreases ops.len(),
{
    if ops.len() > 0 {
        lemma_selection_valid_under_all_ops(m, ops.drop_last());
    }
}

impl HeaderList {
    /// An empty list with no selection.
    pub fn new() -> (r: HeaderList)
        ensures
            r@.entries == Seq::<HeaderModel>::empty(),
            r@.selected == 0,
            r@.wf(),
    {
        proof {
            assert(Seq::<RequestHeader>::empty().map_values(|h: RequestHeader| h@)
                =~= Seq::<HeaderModel>::empty());
        }
        HeaderList { entries: Vec::new(), selected: 0 }
    }

    pub fn len(&self) -> (r: usize)
        ensures
            r == self@.entries.len(),
    {
        self.entries.len()
    }

    pub fn is_empty(&self) -> (r: bool)
        ensures
            r == (self@.entries.len() == 0),
    {
        self.entries.len() == 0
    }

    /// The currently selected index. Meaningful only while the list is
    /// non-empty.
    pub fn selected(&self) -> (r: usize)
        ensures
            r == self@.selected,
    {
        self.selected
    }

    /// The entry at `index`.
    pub fn get(&self, index: usize) -> (r: &RequestHeader)
        requires
            index < self@.entries.len(),
        ensures
            r@ == self@.entries[index as int],
    {
        &self.entries[index]
    }

    /// Appends an entry. The first entry ever added becomes the
    /// selected one; a later addition leaves the selection where it
    /// was.
    pub fn add(&mut self, entry: RequestHeader)
        requires
            old(self)@.wf(),
        ensures
            final(self)@.entries == old(self)@.entries.push(entry@),
            final(self)@.selected == old(self)@.selected,
            final(self)@.wf(),
    {
        self.entries.push(entry);
        proof {
            assert(self@.entries =~= old(self)@.entries.push(entry@));
        }
    }

    /// Replaces the entry at `index`; refused when `index` is out of
    /// range. The selection does not move.
    pub fn edit(&mut self, index: usize, entry: RequestHeader) -> (r: Result<(), HeaderError>)
        requires
            old(self)@.wf(),
        ensures
            final(self)@.wf(),
            final(self)@.selected == old(self)@.selected,
            index < old(self)@.entries.len() ==> r is Ok && final(self)@.entries == old(
                self,
            )@.entries.update(index as int, entry@),
            index >= old(self)@.entries.len() ==> r == Err::<(), HeaderError>(
                HeaderError::IndexOutOfRange,
            ) && final(self)@.entries == old(self)@.entries,
    {
        if index >= self.entries.len() {
            return Err(HeaderError::IndexOutOfRange);
        }
        self.entries[index] = entry;
        proof {
            assert(self@.entries =~= old(self)@.entries.update(index as int, entry@));
        }
        Ok(())
    }

    /// Removes the entry at `index`; refused when `index` is out of
    /// range. On success the selection is clamped so it stays valid:
    /// `min(selected, new length - 1)`, or zero when the list becomes
    /// empty.
    pub fn delete(&mut self, index: usize) -> (r: Result<(), HeaderError>)
        requires
            old(self)@.wf(),
        ensures
            final(self)@.wf(),
            index < old(self)@.entries.len() ==> r is Ok && final(self)@.entries == old(
                self,
            )@.entries.remove(index as int) && final(self)@.selected == old(
                self,
            )@.clamped_after_delete(index as int),
            index >= old(self)@.entries.len() ==> r == Err::<(), HeaderError>(
                HeaderError::IndexOutOfRange,
            ) && final(self)@ == old(self)@,
    {
        if index >= self.entries.len() {
            return Err(HeaderError::IndexOutOfRange);
        }
        self.entries.remove(index);
        let new_len = self.entries.len();
        if new_len == 0 {
            self.selected = 0;
        } else if self.selected >= new_len {
            self.selected = new_len - 1;
        }
        proof {
            assert(self@.entries =~= old(self)@.entries.remove(index as int));
        }
        Ok(())
    }

    /// Moves the selection cyclically, forward or backward. On an
    /// empty list nothing moves and the call says so.
    pub fn move_selection(&mut self, forward: bool) -> (moved: bool)
        requires
            old(self)@.wf(),
        ensures
            final(self)@.wf(),
            final(self)@.entries == old(self)@.entries,
            old(self)@.entries.len() == 0 ==> !moved && final(self)@ == old(self)@,
            old(self)@.entries.len() > 0 ==> moved && final(self)@.selected == if forward {
                cycle_next(old(self)@.selected, old(self)@.entries.len() as int)
            } else {
                cycle_prev(old(self)@.selected, old(self)@.entries.len() as int)
            },
    {
        let len = self.entries.len();
        if len == 0 {
            return false;
        }
        self.selected = if forward {
            next_index(self.selected, len)
        } else {
            prev_index(self.selected, len)
        };
        true
    }

    /// Makes `index` the selected entry.
    pub fn select(&mut self, index: usize)
        requires
            index < old(self)@.entries.len(),
        ensures
            final(self)@.entries == old(self)@.entries,
            final(self)@.selected == index,
            final(self)@.wf(),
    {
        self.selected = index;
    }
}

} // verus!
