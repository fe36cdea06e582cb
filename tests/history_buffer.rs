use std::cell::Cell;
use std::rc::Rc;

use histbuf::HistoryBuffer;

#[test]
fn new() {
    let x: HistoryBuffer<u8, 4> = HistoryBuffer::new_with(1);
    assert_eq!(x.len(), 4);
    assert_eq!(x.as_slice(), [1; 4]);

    let x: HistoryBuffer<u8, 4> = HistoryBuffer::new();
    assert_eq!(x.as_slice(), []);
}

#[test]
fn write() {
    let mut x: HistoryBuffer<u8, 4> = HistoryBuffer::new();
    x.write(1);
    x.write(4);
    assert_eq!(x.as_slice(), [1, 4]);

    x.write(5);
    x.write(6);
    x.write(10);
    assert_eq!(x.as_slice(), [10, 4, 5, 6]);

    x.extend_from_slice(&[11, 12]);
    assert_eq!(x.as_slice(), [10, 11, 12, 6]);
}

#[test]
fn clear() {
    let mut x: HistoryBuffer<u8, 4> = HistoryBuffer::new_with(1);
    x.clear();
    assert_eq!(x.as_slice(), []);

    let mut x: HistoryBuffer<u8, 4> = HistoryBuffer::new();
    x.clear_with(1);
    assert_eq!(x.as_slice(), [1; 4]);
}

#[test]
fn recent() {
    let mut x: HistoryBuffer<u8, 4> = HistoryBuffer::new();
    assert_eq!(x.recent(), None);

    x.write(1);
    x.write(4);
    assert_eq!(x.recent(), Some(&4));

    x.write(5);
    x.write(6);
    x.write(10);
    assert_eq!(x.recent(), Some(&10));
}

#[test]
fn as_slice() {
    let mut x: HistoryBuffer<u8, 4> = HistoryBuffer::new();

    assert_eq!(x.as_slice(), []);

    x.extend_from_slice(&[1, 2, 3, 4, 5]);

    assert_eq!(x.as_slice(), [5, 2, 3, 4]);
}

#[test]
fn empty_buffer_reports_nothing() {
    let x: HistoryBuffer<u32, 7> = HistoryBuffer::new();
    assert_eq!(x.len(), 0);
    assert_eq!(x.capacity(), 7);
    assert_eq!(x.recent(), None);
    assert!(x.as_slice().is_empty());
}

#[test]
fn filled_buffer_holds_the_value_everywhere() {
    let x: HistoryBuffer<i64, 5> = HistoryBuffer::new_with(-3);
    assert_eq!(x.len(), 5);
    assert_eq!(x.capacity(), 5);
    assert!(x.as_slice().iter().all(|v| *v == -3));
    assert_eq!(x.recent(), Some(&-3));

    let mut y: HistoryBuffer<i64, 5> = HistoryBuffer::new();
    y.write(8);
    y.write(9);
    y.clear_with(2);
    assert_eq!(y.len(), 5);
    assert_eq!(y.as_slice(), [2; 5]);
}

#[test]
fn writes_within_capacity_keep_every_value() {
    let mut x: HistoryBuffer<u16, 6> = HistoryBuffer::new();
    let vs = [30u16, 10, 20, 50];
    for (k, v) in vs.iter().enumerate() {
        x.write(*v);
        assert_eq!(x.len(), k + 1);
        assert_eq!(x.recent(), Some(v));
    }
    assert_eq!(x.as_slice(), vs);
}

#[test]
fn writes_beyond_capacity_keep_the_last_values() {
    let mut x: HistoryBuffer<u32, 3> = HistoryBuffer::new();
    let vs: Vec<u32> = (1..=11).collect();
    for v in vs.iter() {
        x.write(*v);
    }
    assert_eq!(x.len(), 3);
    assert_eq!(x.recent(), Some(&11));
    let mut live: Vec<u32> = x.as_slice().to_vec();
    live.sort();
    assert_eq!(live, vec![9, 10, 11]);
    assert_eq!(x.as_slice(), [10, 11, 9]);
}

#[test]
fn exactly_capacity_writes_wrap_the_cursor() {
    let mut x: HistoryBuffer<u8, 3> = HistoryBuffer::new();
    x.write(7);
    x.write(8);
    x.write(9);
    assert_eq!(x.len(), 3);
    assert_eq!(x.recent(), Some(&9));
    assert_eq!(x.as_slice(), [7, 8, 9]);
    x.write(1);
    assert_eq!(x.as_slice(), [1, 8, 9]);
    assert_eq!(x.recent(), Some(&1));
}

#[test]
fn bulk_write_matches_single_writes() {
    let items = [4u8, 8, 15, 16, 23, 42, 7];
    let mut a: HistoryBuffer<u8, 4> = HistoryBuffer::new();
    let mut b: HistoryBuffer<u8, 4> = HistoryBuffer::new();
    a.write(99);
    b.write(99);
    a.extend_from_slice(&items);
    for v in items.iter() {
        b.write(*v);
    }
    assert_eq!(a.as_slice(), b.as_slice());
    assert_eq!(a.len(), b.len());
    assert_eq!(a.recent(), b.recent());
}

#[test]
fn bulk_write_of_strings_clones_them() {
    let items = vec![String::from("a"), String::from("b"), String::from("c")];
    let mut x: HistoryBuffer<String, 2> = HistoryBuffer::new();
    x.extend_from_slice(&items);
    assert_eq!(x.as_slice(), [String::from("c"), String::from("b")]);
    assert_eq!(x.recent(), Some(&String::from("c")));
    assert_eq!(items.len(), 3);
}

#[test]
fn clear_resets_a_filled_buffer() {
    let mut x: HistoryBuffer<u8, 4> = HistoryBuffer::new();
    x.extend_from_slice(&[1, 2, 3, 4, 5, 6]);
    x.clear();
    assert_eq!(x.len(), 0);
    assert_eq!(x.as_slice(), []);
    assert_eq!(x.recent(), None);
    x.write(3);
    assert_eq!(x.as_slice(), [3]);
}

#[test]
fn zero_capacity_ignores_writes() {
    let mut x: HistoryBuffer<u8, 0> = HistoryBuffer::new();
    x.write(5);
    x.extend_from_slice(&[1, 2]);
    assert_eq!(x.len(), 0);
    assert_eq!(x.capacity(), 0);
    assert_eq!(x.recent(), None);
    assert_eq!(x.as_slice(), []);

    let y: HistoryBuffer<u8, 0> = HistoryBuffer::new_with(1);
    assert_eq!(y.len(), 0);
    assert_eq!(y.recent(), None);
}

struct DropCounter {
    drops: Rc<Cell<usize>>,
}

impl Drop for DropCounter {
    fn drop(&mut self) {
        self.drops.set(self.drops.get() + 1);
    }
}

#[test]
fn every_live_value_is_dropped_exactly_once() {
    let drops = Rc::new(Cell::new(0usize));
    let made: usize = 10;
    {
        let mut x: HistoryBuffer<DropCounter, 4> = HistoryBuffer::new();
        for _ in 0..made {
            x.write(DropCounter { drops: drops.clone() });
        }
        // six values were overwritten and dropped on the way
        assert_eq!(drops.get(), 6);
        assert_eq!(x.len(), 4);
    }
    assert_eq!(drops.get(), made);

    let drops = Rc::new(Cell::new(0usize));
    {
        let mut x: HistoryBuffer<DropCounter, 4> = HistoryBuffer::new();
        x.write(DropCounter { drops: drops.clone() });
        x.write(DropCounter { drops: drops.clone() });
        x.clear();
        assert_eq!(drops.get(), 2);
        x.write(DropCounter { drops: drops.clone() });
    }
    assert_eq!(drops.get(), 3);
}
