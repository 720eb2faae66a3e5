use loaned::{Boxed, Heap, Loaned, LoanedMut, MayLeak};
use std::mem::MaybeUninit;

#[test]
fn round_trip_gives_the_payload_back() {
    let mut heap = Heap::new();
    let container = heap.allocate(String::from("before"));
    let address = container.address();
    let (mut r, handle) = LoanedMut::loan(container);
    heap.write(&mut r, String::from("after"));
    let back: Boxed = loaned::take(handle, &mut ());
    assert_eq!(back.address(), address);
    assert_eq!(heap.get(&back), "after");
}

#[test]
fn round_trip_without_a_write() {
    let mut heap = Heap::new();
    let (_r, handle) = Loaned::loan(heap.allocate(5));
    let back = loaned::take(handle, &mut ());
    assert_eq!(*heap.get(&back), 5);
    let mut slot: MaybeUninit<Boxed> = MaybeUninit::uninit();
    LoanedMut::new(back).place(&mut slot);
}

#[test]
fn writes_before_and_after_placement_reach_the_destination() {
    let mut heap = Heap::new();
    let bystander = heap.allocate(50);
    let (mut r, handle) = LoanedMut::loan(heap.allocate(0));
    heap.write(&mut r, 1);
    let mut dest: Option<Boxed> = None;
    handle.place(&mut dest);
    assert_eq!(*heap.peek(&r), 1);
    heap.write(&mut r, 2);
    heap.write(&mut r, 3);
    let landed = dest.expect("the slot is filled");
    assert_eq!(*heap.get(&landed), 3);
    assert_eq!(*heap.get(&bystander), 50);
}

#[test]
fn shared_reference_and_destination_read_the_same() {
    let mut heap = Heap::new();
    let (r, handle) = Loaned::loan(heap.allocate(8));
    let mut dest = heap.allocate(0);
    handle.place(&mut dest);
    let through_reference = *heap.read(&r);
    assert_eq!(through_reference, 8);
    assert_eq!(*heap.get(&dest), through_reference);
}

#[test]
fn merged_loans_are_written_independently() {
    let mut heap = Heap::new();
    let (mut r1, h1) = LoanedMut::loan(heap.allocate(0));
    let (mut r2, h2) = LoanedMut::loan(heap.allocate(0));
    let merged: LoanedMut<(Boxed, Boxed)> = (h1, h2).into();
    heap.write(&mut r2, 200);
    heap.write(&mut r1, 100);
    heap.write(&mut r2, 201);
    let mut dest = None;
    merged.place(&mut dest);
    let pair = dest.expect("the slot is filled");
    assert_eq!((*heap.get(&pair.0), *heap.get(&pair.1)), (100, 201));
}

#[test]
fn leak_report_and_its_suppression() {
    let mut heap = Heap::new();
    let plain = LoanedMut::new(heap.allocate(1));
    let marked = LoanedMut::new(MayLeak::new(heap.allocate(1)));
    assert_eq!(plain.leaks_on_drop(false), true);
    assert_eq!(plain.leaks_on_drop(true), false);
    assert_eq!(marked.leaks_on_drop(false), false);
    assert_eq!(marked.leaks_on_drop(true), false);
}
