use loaned::{Boxed, Heap, Loanable, Loaned, LoanedMut};

#[test]
fn addresses_are_given_out_in_order_and_once() {
    let mut heap = Heap::new();
    let a = heap.allocate('a');
    let b = heap.allocate('b');
    assert_eq!((a.address(), b.address()), (0, 1));
    assert_eq!(heap.free(a), 'a');
    let c = heap.allocate('c');
    assert_eq!(c.address(), 2);
    assert!(!heap.is_live(0));
    assert!(heap.is_live(1));
    assert!(heap.is_live(2));
    assert!(!heap.is_live(3));
}

#[test]
fn owner_reads_and_writes_its_pointee() {
    let mut heap = Heap::new();
    let mut a = heap.allocate(10);
    let b = heap.allocate(20);
    heap.set(&mut a, 11);
    *heap.get_mut(&mut a) += 1;
    assert_eq!((*heap.get(&a), *heap.get(&b)), (12, 20));
}

#[test]
fn a_write_through_the_reference_changes_one_cell() {
    let mut heap = Heap::new();
    let other = heap.allocate(5);
    let (mut r, handle) = LoanedMut::loan(heap.allocate(6));
    assert_eq!(*heap.peek(&r), 6);
    heap.write(&mut r, 7);
    assert_eq!(*heap.peek(&r), 7);
    assert_eq!(*heap.get(&other), 5);
    let owner = loaned::take(handle, &mut ());
    assert_eq!(*heap.get(&owner), 7);
}

#[test]
fn the_reference_names_the_pointee_of_the_container() {
    let mut heap = Heap::new();
    let first = heap.allocate(1);
    let second = heap.allocate(2);
    let address = second.address();
    assert_eq!(second.target(), address);
    let (r, handle) = Loaned::loan(second);
    assert_eq!(r.address(), address);
    assert_eq!(handle.borrow().address(), address);
    assert_eq!(r.target(), address);
    assert_eq!(*heap.read(&r), 2);
    assert_eq!(first.address(), 0);
    let back: Boxed = loaned::take(handle, &mut ());
    assert_eq!(back.address(), address);
}

#[test]
fn placing_over_a_container_frees_its_cell_and_no_other() {
    let mut heap = Heap::new();
    let bystander = heap.allocate(0);
    let mut slot = heap.allocate(1);
    let old_address = slot.address();
    let (mut r, handle) = LoanedMut::loan(heap.allocate(2));
    let new_address = r.address();
    heap.place(handle, &mut slot);
    heap.write(&mut r, 3);
    assert_eq!(slot.address(), new_address);
    assert_eq!(*heap.get(&slot), 3);
    assert!(!heap.is_live(old_address));
    assert!(heap.is_live(new_address));
    assert_eq!(*heap.get(&bystander), 0);
}

#[test]
fn discarding_frees_the_cell_of_the_payload() {
    let mut heap = Heap::new();
    let keep = heap.allocate(1);
    let (mut r, handle) = LoanedMut::loan(heap.allocate(123));
    let address = r.address();
    heap.write(&mut r, 246);
    assert_eq!(*heap.peek(&r), 246);
    assert_eq!(heap.discard(handle, &mut ()), 246);
    assert!(!heap.is_live(address));
    assert!(heap.is_live(keep.address()));
}
