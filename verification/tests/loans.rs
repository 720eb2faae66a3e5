use loaned::{Boxed, Heap, Loaned, LoanedMut, MergeMut};
use std::ops::Deref;
use std::sync::atomic::{AtomicU32, Ordering};

#[test]
fn loaned_mut() {
    let mut heap = Heap::new();
    let (mut r, b) = LoanedMut::loan(heap.allocate(0));
    heap.write(&mut r, 1);
    let mut x = heap.allocate(0);
    b.place(&mut x);
    heap.write(&mut r, 2);
    assert_eq!(*heap.get(&x), 2);
}

#[test]
fn loaned_atomic() {
    let mut heap = Heap::new();
    let (r, b) = Loaned::loan(heap.allocate(AtomicU32::new(0)));
    heap.read(&r).fetch_add(1, Ordering::Relaxed);
    heap.read(&b.borrow()).fetch_add(2, Ordering::Relaxed);
    assert_eq!(heap.get(b.deref()).load(Ordering::Relaxed), 3);
    let mut x = heap.allocate(AtomicU32::new(0));
    b.place(&mut x);
    heap.read(&r).fetch_add(4, Ordering::Relaxed);
    *heap.get_mut(&mut x).get_mut() += 5;
    assert_eq!(*heap.get_mut(&mut x).get_mut(), 12);
}

#[test]
fn place_option() {
    let mut heap = Heap::new();
    let (mut r, b) = LoanedMut::loan(heap.allocate(123));
    heap.write(&mut r, 1);
    let mut x = None;
    b.place(&mut x);
    heap.write(&mut r, 2);
    let landed: Boxed = x.expect("the slot is filled");
    assert_eq!(*heap.get(&landed), 2);
}

#[test]
fn take() {
    let mut heap = Heap::new();
    let (mut r, b) = LoanedMut::loan(heap.allocate(123));
    heap.write(&mut r, 1);
    heap.write(&mut r, 2);
    let owner: Boxed = loaned::take(b, &mut ());
    assert_eq!(*heap.get(&owner), 2);
}

#[test]
fn take_merge() {
    let mut heap = Heap::new();
    let (mut r1, b1) = LoanedMut::loan(heap.allocate(123));
    let (mut r2, b2) = LoanedMut::loan(heap.allocate(123));
    heap.write(&mut r1, 1);
    let blank = (heap.allocate(0), heap.allocate(0));
    let a = LoanedMut::<(Boxed, Boxed)>::merge(blank, |x: &mut (Boxed, Boxed), m: &MergeMut| {
        m.place(b1, &mut x.0);
        m.place(b2, &mut x.1);
    });
    heap.write(&mut r2, 2);
    let pair = loaned::take(a, &mut ());
    assert_eq!((*heap.get(&pair.0), *heap.get(&pair.1)), (1, 2));
}

#[test]
fn into_box() {
    let mut heap = Heap::new();
    let (mut r, b) = LoanedMut::loan(heap.allocate(123));
    heap.write(&mut r, 1);
    let x = LoanedMut::<Box<Boxed>>::from(Box::new(b));
    heap.write(&mut r, 2);
    let boxed: Box<Boxed> = loaned::take(x, &mut ());
    assert_eq!(*heap.get(&boxed), 2);
}

#[test]
fn into_vec() {
    let mut heap = Heap::new();
    let (mut r1, b1) = LoanedMut::loan(heap.allocate(123));
    let (mut r2, b2) = LoanedMut::loan(heap.allocate(123));
    let (mut r3, b3) = LoanedMut::loan(heap.allocate(123));
    let mut x = Vec::new();
    x.push(b1);
    heap.write(&mut r1, 1);
    heap.write(&mut r2, 2);
    x.push(b2);
    x.push(b3);
    let x: LoanedMut<Vec<Boxed>> = x.into();
    heap.write(&mut r3, 3);
    let owners = loaned::take(x, &mut ());
    let read: Vec<i32> = owners.iter().map(|o| *heap.get(o)).collect();
    assert_eq!(read, vec![1, 2, 3]);
}

#[test]
fn into_tuple() {
    let mut heap = Heap::new();
    let (mut r, b) = LoanedMut::loan(heap.allocate(0));
    let other = LoanedMut::new(heap.allocate(456));
    let xy = LoanedMut::<(_, _)>::from((b, other));
    heap.write(&mut r, 123);
    let pair = loaned::take(xy, &mut ());
    assert_eq!((*heap.get(&pair.0), *heap.get(&pair.1)), (123, 456));
}
