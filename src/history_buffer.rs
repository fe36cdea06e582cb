//! The executable history buffer.
use vstd::prelude::*;

use crate::model::{clones_of, HistoryView};

verus! {

/// A write-only ring of fixed capacity `N` that keeps the history of the
/// values written into it.
///
/// On write, the oldest value is overwritten once the buffer is full. Live
/// cells are kept in physical order in `data`; `write_at` is the next cell to
/// be written and `filled` tells whether the cursor has wrapped at least once.
pub struct HistoryBuffer<T, const N: usize> {
    data: Vec<T>,
    write_at: usize,
    filled: bool,
}

impl<T, const N: usize> View for HistoryBuffer<T, N> {
    type V = HistoryView<T>;

    closed spec fn view(&self) -> HistoryView<T> {
        HistoryView {
            slots: self.data@,
            write_at: self.write_at as nat,
            filled: self.filled,
            capacity: N as nat,
        }
    }
}

impl<T, const N: usize> HistoryBuffer<T, N> {
    /// Well-formedness: the model satisfies its bookkeeping invariant.
    pub open spec fn wf(&self) -> bool {
        &&& self@.inv()
        &&& self@.capacity == N
    }

    /// Constructs an empty history buffer.
    pub fn new() -> (r: Self)
        ensures
            r.wf(),
            r@ == HistoryView::<T>::empty(N as nat),
    {
        HistoryBuffer { data: Vec::new(), write_at: 0, filled: false }
    }

    /// Clears the buffer: every live value is dropped and the buffer is empty.
    pub fn clear(&mut self)
        ensures
            final(self).wf(),
            final(self)@ == HistoryView::<T>::empty(N as nat),
    {
        *self = Self::new();
    }

    /// Returns the current fill level of the buffer.
    pub fn len(&self) -> (r: usize)
        requires
            self.wf(),
        ensures
            r == self@.len(),
    {
        if self.filled {
            N
        } else {
            self.write_at
        }
    }

    /// Writes a value into the buffer, dropping and overwriting the oldest
    /// value once the buffer is full. A buffer without cells ignores writes.
    pub fn write(&mut self, t: T)
        requires
            old(self).wf(),
        ensures
            final(self).wf(),
            final(self)@ == old(self)@.write(t),
    {
        if N == 0 {
            return;
        }
        if self.filled {
            self.data[self.write_at] = t;
        } else {
            self.data.push(t);
        }
        self.write_at = self.write_at + 1;
        if self.write_at == N {
            self.write_at = 0;
            self.filled = true;
        }
        assert(self@.slots =~= old(self)@.write(t).slots);
    }

    /// Returns a reference to the most recently written value, or `None`
    /// when nothing has been written yet.
    pub fn recent(&self) -> (r: Option<&T>)
        requires
            self.wf(),
        ensures
            r.is_some() == self@.recent().is_some(),
            r.is_some() ==> *r.unwrap() == self@.recent().unwrap(),
    {
        if self.write_at == 0 {
            if self.filled && N > 0 {
                Some(&self.data[N - 1])
            } else {
                None
            }
        } else {
            Some(&self.data[self.write_at - 1])
        }
    }

    /// Returns the live cells in physical order. This is not the order in
    /// which the values were written: only `recent` knows about recency.
    pub fn as_slice(&self) -> (r: &[T])
        requires
            self.wf(),
        ensures
            r@ == self@.slots,
            r@.len() == self@.len(),
    {
        self.data.as_slice()
    }

    /// Clones and writes every element of `other`, in order. Where `other`
    /// is longer than the capacity, only its last `N` elements stay.
    pub fn extend_from_slice(&mut self, other: &[T])
        where
            T: Clone,
        requires
            old(self).wf(),
        ensures
            final(self).wf(),
            exists|c: Seq<T>|
                #[trigger] clones_of(other@, c) && final(self)@ == old(self)@.write_all(c),
    {
        let ghost mut c: Seq<T> = Seq::empty();
        let mut i: usize = 0;
        while i < other.len()
            invariant
                self.wf(),
                i <= other@.len(),
                clones_of(other@.subrange(0, i as int), c),
                self@ == old(self)@.write_all(c),
            decreases other@.len() - i,
        {
            let item = other[i].clone();
            proof {
                let c2 = c.push(item);
                assert(c2.drop_last() =~= c);
                c = c2;
                assert forall|j: int| 0 <= j < i + 1 implies cloned(
                    other@.subrange(0, i + 1)[j],
                    #[trigger] c[j],
                ) by {
                    if j < i {
                        assert(other@.subrange(0, i as int)[j] == other@.subrange(0, i + 1)[j]);
                    }
                }
            }
            self.write(item);
            i = i + 1;
        }
        assert(other@.subrange(0, i as int) =~= other@);
    }

    /// Returns the capacity of the buffer, the number of its cells.
    pub fn capacity(&self) -> (r: usize)
        ensures
            r == N,
            r == self@.capacity,
    {
        N
    }
}

impl<T: Copy, const N: usize> HistoryBuffer<T, N> {
    /// Constructs a history buffer whose every cell holds `t`.
    pub fn new_with(t: T) -> (r: Self)
        ensures
            r.wf(),
            r@ == HistoryView::<T>::filled_with(N as nat, t),
    {
        let mut data: Vec<T> = Vec::new();
        let mut i: usize = 0;
        while i < N
            invariant
                i <= N,
                data@ =~= Seq::new(i as nat, |j: int| t),
            decreases N - i,
        {
            data.push(t);
            i = i + 1;
        }
        let r = HistoryBuffer { data, write_at: 0, filled: true };
        assert(r@.slots =~= HistoryView::<T>::filled_with(N as nat, t).slots);
        r
    }

    /// Clears the buffer, replacing every cell with `t`.
    pub fn clear_with(&mut self, t: T)
        ensures
            final(self).wf(),
            final(self)@ == HistoryView::<T>::filled_with(N as nat, t),
    {
        *self = Self::new_with(t);
    }
}

} // verus!
