//! The mathematical model of a history buffer: its physical slots, its write
//! cursor and its fill state.
use vstd::prelude::*;

verus! {

/// Abstract state of a history buffer.
///
/// `slots` are the live cells in physical order, `write_at` is the index of
/// the next cell to be written, `filled` says whether every cell has been
/// written at least once, and `capacity` is the fixed number of cells.
pub struct HistoryView<T> {
    pub slots: Seq<T>,
    pub write_at: nat,
    pub filled: bool,
    pub capacity: nat,
}

impl<T> HistoryView<T> {
    /// The bookkeeping invariant: before the first wrap the live cells are
    /// exactly `[0, write_at)`, afterwards all `capacity` cells are live.
    pub open spec fn inv(self) -> bool {
        &&& self.write_at < self.capacity || (self.capacity == 0 && self.write_at == 0)
        &&& if self.filled {
            self.slots.len() == self.capacity
        } else {
            self.slots.len() == self.write_at
        }
    }

    /// A buffer in which no cell is live.
    pub open spec fn empty(capacity: nat) -> Self {
        HistoryView { slots: Seq::empty(), write_at: 0, filled: false, capacity }
    }

    /// A buffer whose every cell holds `v`.
    pub open spec fn filled_with(capacity: nat, v: T) -> Self {
        HistoryView { slots: Seq::new(capacity, |i: int| v), write_at: 0, filled: true, capacity }
    }

    /// Number of live cells.
    pub open spec fn len(self) -> nat {
        if self.filled {
            self.capacity
        } else {
            self.write_at
        }
    }

    /// The most recently written value, if any.
    pub open spec fn recent(self) -> Option<T> {
        if self.write_at == 0 {
            if self.filled && self.capacity > 0 {
                Some(self.slots[self.capacity - 1])
            } else {
                None
            }
        } else {
            Some(self.slots[self.write_at - 1])
        }
    }

    /// The state after writing `t`: the cell under the cursor receives `t`
    /// (replacing what it held, if it was live) and the cursor moves on,
    /// wrapping to 0 at the end. With no cells at all nothing changes.
    pub open spec fn write(self, t: T) -> Self {
        if self.capacity == 0 {
            self
        } else {
            HistoryView {
                slots: if self.filled {
                    self.slots.update(self.write_at as int, t)
                } else {
                    self.slots.push(t)
                },
                write_at: if self.write_at + 1 == self.capacity {
                    0
                } else {
                    self.write_at + 1
                },
                filled: self.filled || self.write_at + 1 == self.capacity,
                capacity: self.capacity,
            }
        }
    }

    /// The state after writing each of `items`, in order.
    pub open spec fn write_all(self, items: Seq<T>) -> Self
        decreases items.len(),
    {
        if items.len() == 0 {
            self
        } else {
            self.write_all(items.drop_last()).write(items.last())
        }
    }
}

/// `c` holds, position by position, clones of `items`.
pub open spec fn clones_of<T: Clone>(items: Seq<T>, c: Seq<T>) -> bool {
    &&& c.len() == items.len()
    &&& forall|i: int| 0 <= i < items.len() ==> cloned(items[i], #[trigger] c[i])
}

} // verus!
