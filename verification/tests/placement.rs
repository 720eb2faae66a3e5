use loaned::{discard, take, Loaned, LoanedMut, Place, Placeable};
use std::mem::MaybeUninit;
use std::rc::Rc;

#[test]
fn same_type_slot_holds_the_delivered_value() {
    let mut slot: u32 = 7;
    LoanedMut::new(5u32).place(&mut slot);
    assert_eq!(slot, 5);
}

#[test]
fn same_type_slot_cleans_up_the_old_occupant_once() {
    let old_value = Rc::new(1);
    let delivered = Rc::new(2);
    let mut slot = old_value.clone();
    assert_eq!(Rc::strong_count(&old_value), 2);
    LoanedMut::new(delivered.clone()).place(&mut slot);
    assert_eq!(Rc::strong_count(&old_value), 1);
    assert_eq!(Rc::strong_count(&delivered), 2);
    assert!(Rc::ptr_eq(&slot, &delivered));
}

#[test]
fn optional_slot_that_was_empty() {
    let mut slot: Option<String> = None;
    Loaned::new(String::from("in")).place(&mut slot);
    assert_eq!(slot, Some(String::from("in")));
}

#[test]
fn optional_slot_that_was_full() {
    let old_value = Rc::new(1);
    let mut slot = Some(old_value.clone());
    LoanedMut::new(Rc::new(2)).place(&mut slot);
    assert_eq!(Rc::strong_count(&old_value), 1);
    assert_eq!(slot.map(|rc| *rc), Some(2));
}

#[test]
fn raw_slot_accepts_a_payload() {
    let mut slot: MaybeUninit<u64> = MaybeUninit::uninit();
    LoanedMut::new(9u64).place(&mut slot);
    let mut again: MaybeUninit<u64> = MaybeUninit::new(1);
    Loaned::new(3u64).place(&mut again);
}

#[test]
fn place_trait_is_the_same_delivery() {
    let mut slot: Option<u8> = Some(1);
    <Option<u8> as Place<u8>>::place(LoanedMut::new(2u8), &mut slot);
    assert_eq!(slot, Some(2));
    let mut whole: Option<u8> = Some(1);
    <Option<u8> as Place<Option<u8>>>::place(LoanedMut::new(None), &mut whole);
    assert_eq!(whole, None);
}

#[test]
fn placeable_works_for_both_kinds() {
    let mut a: i64 = 0;
    let mut b: i64 = 0;
    Placeable::place(Loaned::new(-1i64), &mut a);
    Placeable::place(LoanedMut::new(-2i64), &mut b);
    assert_eq!((a, b), (-1, -2));
    assert_eq!(Placeable::take(Loaned::new(11u8), &mut ()), 11);
    assert_eq!(Placeable::take(LoanedMut::new(12u8), &mut ()), 12);
}

#[test]
fn take_hands_the_payload_back() {
    assert_eq!(take(LoanedMut::new(vec![1, 2, 3]), &mut ()), vec![1, 2, 3]);
    assert_eq!(take(Loaned::new("x"), &mut ()), "x");
}

#[test]
fn discard_runs_the_cleanup() {
    let shared = Rc::new(0);
    let handle = LoanedMut::new(shared.clone());
    assert_eq!(Rc::strong_count(&shared), 2);
    discard(handle, &mut ());
    assert_eq!(Rc::strong_count(&shared), 1);
}

#[test]
fn a_lost_handle_runs_no_cleanup() {
    let shared = Rc::new(0);
    let handle = LoanedMut::new(shared.clone());
    std::mem::drop(handle);
    assert_eq!(Rc::strong_count(&shared), 2);
    let other = Loaned::new(shared.clone());
    std::mem::drop(other);
    assert_eq!(Rc::strong_count(&shared), 3);
}
