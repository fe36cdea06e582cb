//! Laws of the history buffer model, proved over `HistoryView`.
use vstd::prelude::*;

use vstd::arithmetic::div_mod::{lemma_add_mod_noop, lemma_mod_self_0, lemma_small_mod};

use crate::model::HistoryView;

verus! {

/// `l` rotated so that its last `w` elements come first: the physical layout
/// of a full buffer whose chronological contents are `l` and whose cursor
/// stands at `w`.
pub open spec fn rotated<T>(l: Seq<T>, w: nat) -> Seq<T> {
    l.subrange(l.len() - w, l.len() as int) + l.subrange(0, l.len() - w)
}

/// The last `n` elements of `s`.
pub open spec fn last_n<T>(s: Seq<T>, n: nat) -> Seq<T> {
    s.subrange(s.len() - n, s.len() as int)
}

/// A single write preserves the bookkeeping invariant and the capacity.
pub proof fn lemma_write_inv<T>(s: HistoryView<T>, t: T)
    requires
        s.inv(),
    ensures
        s.write(t).inv(),
        s.write(t).capacity == s.capacity,
{
}

/// Any sequence of writes preserves the bookkeeping invariant and the
/// capacity.
pub proof fn lemma_write_all_inv<T>(s: HistoryView<T>, items: Seq<T>)
    requires
        s.inv(),
    ensures
        s.write_all(items).inv(),
        s.write_all(items).capacity == s.capacity,
    decreases items.len(),
{
    if items.len() > 0 {
        lemma_write_all_inv(s, items.drop_last());
        lemma_write_inv(s.write_all(items.drop_last()), items.last());
    }
}

/// A freshly constructed empty buffer has no live cell, the given capacity,
/// no most recent value and an empty physical view.
pub proof fn lemma_empty_buffer<T>(capacity: nat)
    ensures
        HistoryView::<T>::empty(capacity).inv(),
        HistoryView::<T>::empty(capacity).len() == 0,
        HistoryView::<T>::empty(capacity).capacity == capacity,
        HistoryView::<T>::empty(capacity).recent() == None::<T>,
        HistoryView::<T>::empty(capacity).slots == Seq::<T>::empty(),
{
}

/// A buffer filled with `v` holds `capacity` live cells, each equal to `v`.
pub proof fn lemma_filled_buffer<T>(capacity: nat, v: T)
    ensures
        HistoryView::<T>::filled_with(capacity, v).inv(),
        HistoryView::<T>::filled_with(capacity, v).len() == capacity,
        HistoryView::<T>::filled_with(capacity, v).slots.len() == capacity,
        forall|i: int|
            0 <= i < capacity ==> #[trigger] HistoryView::<T>::filled_with(capacity, v).slots[i]
                == v,
{
}

/// The exact state reached by writing `vs` into an empty buffer: before the
/// first wrap the live cells are `vs` itself; afterwards they are the last
/// `capacity` values written, rotated around the cursor, and the cursor stands
/// at `vs.len() % capacity`.
pub proof fn lemma_writes_from_empty<T>(capacity: nat, vs: Seq<T>)
    requires
        capacity > 0,
    ensures
        HistoryView::<T>::empty(capacity).write_all(vs).inv(),
        HistoryView::<T>::empty(capacity).write_all(vs).capacity == capacity,
        HistoryView::<T>::empty(capacity).write_all(vs).write_at == vs.len() % capacity,
        HistoryView::<T>::empty(capacity).write_all(vs).filled == (vs.len() >= capacity),
        vs.len() < capacity ==> HistoryView::<T>::empty(capacity).write_all(vs).slots == vs,
        vs.len() >= capacity ==> HistoryView::<T>::empty(capacity).write_all(vs).slots == rotated(
            last_n(vs, capacity),
            HistoryView::<T>::empty(capacity).write_all(vs).write_at,
        ),
    decreases vs.len(),
{
    let e = HistoryView::<T>::empty(capacity);
    let m = vs.len();
    if m == 0 {
        lemma_small_mod(0, capacity);
        return;
    }
    let prev = vs.drop_last();
    let x = vs.last();
    lemma_writes_from_empty(capacity, prev);
    let p = e.write_all(prev);
    let s = e.write_all(vs);
    assert(s == p.write(x));
    let w = p.write_at;
    lemma_add_mod_noop((m - 1) as int, 1, capacity as int);
    if capacity > 1 {
        lemma_small_mod(1, capacity);
    } else {
        lemma_mod_self_0(1);
    }
    if w + 1 < capacity {
        lemma_small_mod(w + 1, capacity);
    } else {
        lemma_mod_self_0(capacity as int);
    }
    assert(s.write_at == m % capacity);
    if m < capacity {
        assert(s.slots =~= vs);
    } else if m == capacity {
        assert(last_n(vs, capacity) =~= vs);
        assert(rotated(vs, 0) =~= vs);
    } else {
        let lp = last_n(prev, capacity);
        let l = last_n(vs, capacity);
        let w2 = s.write_at;
        assert(p.slots == rotated(lp, w));
        assert forall|i: int| 0 <= i < capacity implies #[trigger] s.slots[i] == rotated(l, w2)[i] by {
            if i < w2 {
                assert(rotated(l, w2)[i] == l[capacity - w2 + i]);
            } else {
                assert(rotated(l, w2)[i] == l[i - w2]);
            }
            if i != w {
                if i < w {
                    assert(p.slots[i] == lp[capacity - w + i]);
                } else {
                    assert(p.slots[i] == lp[i - w]);
                }
            }
        }
        assert(s.slots =~= rotated(l, w2));
    }
}

/// Writing at most `capacity` values into an empty buffer keeps all of them,
/// in the order written, and the last one is the most recent value.
pub proof fn lemma_writes_within_capacity<T>(capacity: nat, vs: Seq<T>)
    requires
        vs.len() <= capacity,
    ensures
        HistoryView::<T>::empty(capacity).write_all(vs).len() == vs.len(),
        HistoryView::<T>::empty(capacity).write_all(vs).slots == vs,
        vs.len() > 0 ==> HistoryView::<T>::empty(capacity).write_all(vs).recent() == Some(
            vs.last(),
        ),
{
    if capacity == 0 {
        assert(vs =~= Seq::<T>::empty());
    } else {
        lemma_writes_from_empty(capacity, vs);
        if vs.len() == capacity {
            lemma_mod_self_0(capacity as int);
            assert(last_n(vs, capacity) =~= vs);
            assert(rotated(vs, 0) =~= vs);
        } else {
            lemma_small_mod(vs.len(), capacity);
        }
    }
}

/// Writing `capacity` values or more into an empty buffer leaves it full,
/// with the last value written as the most recent one, and with live cells
/// that hold exactly the last `capacity` values written, whatever their
/// physical order.
pub proof fn lemma_writes_beyond_capacity<T>(capacity: nat, vs: Seq<T>)
    requires
        capacity > 0,
        vs.len() >= capacity,
    ensures
        HistoryView::<T>::empty(capacity).write_all(vs).len() == capacity,
        HistoryView::<T>::empty(capacity).write_all(vs).recent() == Some(vs.last()),
        HistoryView::<T>::empty(capacity).write_all(vs).slots.to_multiset() == last_n(
            vs,
            capacity,
        ).to_multiset(),
{
    lemma_writes_from_empty(capacity, vs);
    let s = HistoryView::<T>::empty(capacity).write_all(vs);
    let l = last_n(vs, capacity);
    let w = s.write_at;
    let a = l.subrange(0, capacity - w);
    let b = l.subrange(capacity - w, capacity as int);
    assert(l =~= a + b);
    vstd::seq_lib::lemma_multiset_commutative(a, b);
    vstd::seq_lib::lemma_multiset_commutative(b, a);
    if w == 0 {
        assert(s.slots[capacity - 1] == l[capacity - 1]);
    } else {
        assert(s.slots[w - 1] == l[capacity - 1]);
    }
}

/// Writing a one-element sequence is a single write.
pub proof fn lemma_write_all_single<T>(s: HistoryView<T>, t: T)
    ensures
        s.write_all(seq![t]) == s.write(t),
{
    assert(seq![t].drop_last() =~= Seq::<T>::empty());
    assert(s.write_all(Seq::<T>::empty()) == s);
    assert(seq![t].last() == t);
}

/// Writing `a` and then `b` is writing `a + b`: together with the single-write
/// law, a bulk write is the same as writing its items one by one, in order.
pub proof fn lemma_write_all_concat<T>(s: HistoryView<T>, a: Seq<T>, b: Seq<T>)
    ensures
        s.write_all(a).write_all(b) == s.write_all(a + b),
    decreases b.len(),
{
    if b.len() == 0 {
        assert(a + b =~= a);
    } else {
        lemma_write_all_concat(s, a, b.drop_last());
        assert((a + b).drop_last() =~= a + b.drop_last());
        assert((a + b).last() == b.last());
    }
}

} // verus!
