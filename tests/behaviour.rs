use std::rc::Rc;

use minivec::{Handle, MiniVec};

#[test]
fn push_counts_and_capacity_doubles() {
    let mut v: MiniVec<u8> = MiniVec::new();
    let mut seen = Vec::new();
    for i in 0..9u8 {
        v.push(i);
        assert_eq!(v.len(), i as usize + 1);
        assert!(v.capacity() >= v.len());
        seen.push(v.capacity());
    }
    assert_eq!(seen, vec![1, 2, 4, 4, 8, 8, 8, 8, 16]);
    assert_eq!(v.as_slice(), &[0, 1, 2, 3, 4, 5, 6, 7, 8]);
}

#[test]
fn with_capacity_zero_is_empty_and_unallocated() {
    let v: MiniVec<i32> = MiniVec::with_capacity(0);
    assert_eq!(v.len(), 0);
    assert_eq!(v.capacity(), 0);
    assert!(v.is_empty());
}

#[test]
fn with_capacity_grows_by_doubling_once_full() {
    let mut v: MiniVec<i32> = MiniVec::with_capacity(3);
    assert_eq!(v.len(), 0);
    assert_eq!(v.capacity(), 3);
    for i in 0..4 {
        v.push(i);
    }
    assert_eq!(v.capacity(), 6);
}

#[test]
fn pop_last_then_empty_gives_none() {
    let mut v = MiniVec::from_vec(vec![1, 2, 3]);
    let cap = v.capacity();
    assert_eq!(v.pop(), Some(3));
    assert_eq!(v.as_slice(), &[1, 2]);
    assert_eq!(v.pop(), Some(2));
    assert_eq!(v.pop(), Some(1));
    assert_eq!(v.pop(), None);
    assert!(v.is_empty());
    assert_eq!(v.capacity(), cap);

    let mut e: MiniVec<String> = MiniVec::new();
    assert_eq!(e.pop(), None);
}

#[test]
fn insert_at_front_middle_and_end() {
    let mut v = MiniVec::from_vec(vec![1, 2, 3]);
    v.insert(3, 9);
    assert_eq!(v.as_slice(), &[1, 2, 3, 9]);
    v.insert(0, 0);
    assert_eq!(v.as_slice(), &[0, 1, 2, 3, 9]);
    let mut e: MiniVec<i32> = MiniVec::new();
    e.insert(0, 5);
    assert_eq!(e.as_slice(), &[5]);
    assert_eq!(e.capacity(), 1);
}

#[test]
fn remove_first_and_last() {
    let mut v = MiniVec::from_vec(vec![1, 2, 3]);
    assert_eq!(v.remove(0), 1);
    assert_eq!(v.remove(1), 3);
    assert_eq!(v.as_slice(), &[2]);
    assert_eq!(v.capacity(), 4);
}

#[test]
fn dedup_keeps_non_adjacent_repeats() {
    let mut v = MiniVec::from_vec(vec![1, 2, 1, 1, 3, 3, 3, 4, 5, 4]);
    v.dedup();
    assert_eq!(v.as_slice(), &[1, 2, 1, 3, 4, 5, 4]);

    let mut e: MiniVec<i32> = MiniVec::new();
    e.dedup();
    assert!(e.is_empty());
}

#[test]
fn dedup_by_compares_with_last_kept() {
    let mut v = MiniVec::from_vec(vec![10, 11, 12, 20, 21, 30]);
    v.dedup_by(|x, k| x / 10 == k / 10);
    assert_eq!(v.as_slice(), &[10, 20, 30]);
}

#[test]
fn dedup_drops_each_removed_duplicate_once() {
    let a = Rc::new(1);
    let b = Rc::new(2);
    let c = Rc::new(3);
    let mut v = MiniVec::from_vec(vec![a.clone(), a.clone(), b.clone(), c.clone()]);
    assert_eq!(Rc::strong_count(&a), 3);
    v.dedup();
    assert_eq!(v.len(), 3);
    assert_eq!(Rc::strong_count(&a), 2);
    assert_eq!(Rc::strong_count(&b), 2);
    assert_eq!(Rc::strong_count(&c), 2);
    drop(v);
    assert_eq!(Rc::strong_count(&a), 1);
}

#[test]
fn dedup_long_run_drops_every_duplicate() {
    let a = Rc::new(7);
    let mut v = MiniVec::new();
    for _ in 0..5 {
        v.push(a.clone());
    }
    v.push(Rc::new(8));
    assert_eq!(Rc::strong_count(&a), 6);
    v.dedup();
    assert_eq!(v.len(), 2);
    assert_eq!(Rc::strong_count(&a), 2);
    assert_eq!(*v.as_slice()[1], 8);
}

#[test]
fn extend_from_slice_grows_once_to_exact_room() {
    let src = [2, 3, 4, 5];
    let mut v = MiniVec::from_vec(vec![1]);
    assert_eq!(v.capacity(), 1);
    v.extend_from_slice(&src);
    assert_eq!(v.capacity(), 5);
    assert_eq!(v.as_slice(), &[1, 2, 3, 4, 5]);
    assert_eq!(src, [2, 3, 4, 5]);
    v.extend_from_slice(&[]);
    assert_eq!(v.len(), 5);
    assert_eq!(v.capacity(), 5);

    let mut w: MiniVec<i32> = MiniVec::with_capacity(10);
    w.extend_from_slice(&src);
    assert_eq!(w.capacity(), 10);
    assert_eq!(w.len(), 4);
}

#[test]
fn from_vec_takes_elements_in_order() {
    let v = MiniVec::from_vec(vec!['a', 'b', 'c']);
    assert_eq!(v.as_slice(), &['a', 'b', 'c']);
    assert_eq!(v.capacity(), 4);
    let e: MiniVec<char> = MiniVec::from_vec(Vec::new());
    assert_eq!(e.capacity(), 0);
}

#[test]
fn leak_write_first_then_rebuild_from_header() {
    let v = MiniVec::from_vec(vec![1, 2, 3]);
    let cap = v.capacity();
    let mut h = v.leak();
    assert_eq!(h.len(), 3);
    assert_eq!(h.capacity(), cap);
    h.write(0, 4);
    let rebuilt = MiniVec::from_raw_part(h);
    assert_eq!(rebuilt.len(), 3);
    assert_eq!(rebuilt.capacity(), cap);
    assert_eq!(rebuilt.as_slice(), &[4, 2, 3]);
}

#[test]
fn from_raw_parts_overrides_header() {
    let mut v: MiniVec<i32> = MiniVec::with_capacity(8);
    v.push(1);
    v.push(2);
    v.push(3);
    let mut h: Handle<i32> = v.leak();
    h.write(3, 40);
    h.write(4, 50);
    assert_eq!(h.len(), 3);
    assert_eq!(h.initialized(), 5);
    assert_eq!(h.as_slice(), &[1, 2, 3]);

    let rebuilt = MiniVec::from_raw_parts(h, 5, 8);
    assert_eq!(rebuilt.as_slice(), &[1, 2, 3, 40, 50]);
    assert_eq!(rebuilt.capacity(), 8);

    let mut w: MiniVec<i32> = MiniVec::with_capacity(8);
    w.push(1);
    w.push(2);
    w.push(3);
    let shorter = MiniVec::from_raw_parts(w.leak(), 2, 6);
    assert_eq!(shorter.as_slice(), &[1, 2]);
    assert_eq!(shorter.len(), 2);
    assert_eq!(shorter.capacity(), 6);
}

#[test]
fn rebuilt_container_keeps_working() {
    let v = MiniVec::from_vec(vec![1, 2]);
    let mut r = MiniVec::from_raw_part(v.leak());
    r.push(3);
    r.push(4);
    r.push(5);
    assert_eq!(r.as_slice(), &[1, 2, 3, 4, 5]);
    assert_eq!(r.capacity(), 8);
}
