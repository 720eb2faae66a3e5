use loaned::{Boxed, Heap, Loanee, Loaned, LoanedMut, MayLeak, RawLoaned, Ref, RefMut};
use std::collections::hash_map::DefaultHasher;
use std::hash::{Hash, Hasher};
use std::ops::{Deref, DerefMut};
use std::rc::Rc;

#[test]
fn losing_a_payload_that_needs_cleanup_is_reported() {
    let mut heap = Heap::new();
    let (_r, handle) = LoanedMut::loan(heap.allocate(1));
    assert!(handle.leaks_on_drop(false));
    let (_s, shared) = Loaned::loan(heap.allocate(2));
    assert!(shared.leaks_on_drop(false));
}

#[test]
fn nothing_is_reported_while_unwinding() {
    let mut heap = Heap::new();
    let handle = LoanedMut::new(heap.allocate(1));
    assert!(!handle.leaks_on_drop(true));
    let shared = Loaned::new(Box::new(1));
    assert!(!shared.leaks_on_drop(true));
}

#[test]
fn the_leak_marker_suppresses_the_report() {
    let mut heap = Heap::new();
    let (mut r, handle) = LoanedMut::loan(MayLeak::new(heap.allocate(1)));
    heap.write(&mut r, 2);
    assert!(!handle.leaks_on_drop(false));
    assert!(!handle.leaks_on_drop(true));
    let owner = MayLeak::into_inner(loaned::take(handle, &mut ()));
    assert_eq!(*heap.get(&owner), 2);
}

#[test]
fn which_payloads_need_cleanup() {
    assert!(<Boxed as Loanee>::needs_drop());
    assert!(<Box<u8> as Loanee>::needs_drop());
    assert!(<Rc<u8> as Loanee>::needs_drop());
    assert!(<std::sync::Arc<u8> as Loanee>::needs_drop());
    assert!(<Vec<u8> as Loanee>::needs_drop());
    assert!(!<Ref as Loanee>::needs_drop());
    assert!(!<RefMut as Loanee>::needs_drop());
    assert!(!<&u8 as Loanee>::needs_drop());
    assert!(!<&mut u8 as Loanee>::needs_drop());
    assert!(!<MayLeak<Boxed> as Loanee>::needs_drop());
    assert!(<Option<Boxed> as Loanee>::needs_drop());
    assert!(!<Option<Ref> as Loanee>::needs_drop());
    assert!(<(Ref, Boxed) as Loanee>::needs_drop());
    assert!(!<(Ref, RefMut, &u8) as Loanee>::needs_drop());
    assert!(!<(Ref,) as Loanee>::needs_drop());
    assert!(<(Ref, Ref, Ref, Ref, Ref, Ref, Ref, Ref, Ref, Boxed) as Loanee>::needs_drop());
}

#[test]
fn leak_marker_round_trip() {
    let mut slot = MayLeak::new(String::from("a"));
    assert_eq!(slot.deref(), "a");
    slot.deref_mut().push('b');
    assert_eq!(MayLeak::into_inner(slot), "ab");
}

#[test]
fn leak_marker_runs_no_cleanup_by_itself() {
    let shared = Rc::new(0);
    let slot = MayLeak::new(shared.clone());
    std::mem::drop(slot);
    assert_eq!(Rc::strong_count(&shared), 2);
}

#[test]
fn raw_cell_round_trip() {
    let mut raw = RawLoaned::new(vec![1, 2]);
    assert_eq!(raw.as_ref(), &vec![1, 2]);
    raw.as_mut().push(3);
    *raw.as_mut() = vec![9, 2, 3];
    assert_eq!(raw.as_ref(), &vec![9, 2, 3]);
    assert_eq!(raw.into_inner(), vec![9, 2, 3]);
}

#[test]
fn raw_cell_runs_no_cleanup_by_itself() {
    let shared = Rc::new(0);
    let raw = RawLoaned::new(shared.clone());
    std::mem::drop(raw);
    assert_eq!(Rc::strong_count(&shared), 2);
    let raw = RawLoaned::new(shared.clone());
    let slot = std::mem::MaybeUninit::from(raw);
    std::mem::drop(slot);
    assert_eq!(Rc::strong_count(&shared), 3);
}

#[test]
fn shared_loans_compare_as_their_payloads() {
    assert!(Loaned::new(1u8) == Loaned::new(1u8));
    assert!(Loaned::new(1u8) != Loaned::new(2u8));
    assert!(Loaned::new(1u8) < Loaned::new(2u8));
    assert!(Loaned::new("b") >= Loaned::new("a"));
    assert_eq!(Loaned::new(3u8).partial_cmp(&Loaned::new(3u8)), Some(std::cmp::Ordering::Equal));
}

#[test]
fn shared_loans_clone_default_and_hash_as_their_payloads() {
    let first = Loaned::new(String::from("p"));
    let copy = first.clone();
    assert!(first == copy);
    let blank: Loaned<u32> = Loaned::default();
    assert_eq!(*blank.deref(), 0);
    let blank: LoanedMut<String> = LoanedMut::default();
    assert_eq!(loaned::take(blank, &mut ()), String::new());
    let mut by_handle = DefaultHasher::new();
    Loaned::new(77u64).hash(&mut by_handle);
    let mut by_payload = DefaultHasher::new();
    77u64.hash(&mut by_payload);
    assert_eq!(by_handle.finish(), by_payload.finish());
}
