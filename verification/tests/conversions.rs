use loaned::{Boxed, Heap, Loaned, LoanedMut};
use std::ops::Deref;

#[test]
fn any_value_becomes_a_handle() {
    let shared: Loaned<u8> = 3u8.into();
    assert_eq!(*shared.deref(), 3);
    assert_eq!(loaned::take(shared, &mut ()), 3);
    let exclusive: LoanedMut<&str> = LoanedMut::from("payload");
    assert_eq!(loaned::take(exclusive, &mut ()), "payload");
}

#[test]
fn shared_loan_becomes_mutable_loan() {
    let shared = Loaned::new(vec![1u8, 2]);
    let exclusive: LoanedMut<Vec<u8>> = shared.into();
    assert_eq!(loaned::take(exclusive, &mut ()), vec![1, 2]);
}

#[test]
fn boxed_handle_becomes_handle_of_box() {
    let shared = Loaned::<Box<u16>>::from(Box::new(Loaned::new(5u16)));
    assert_eq!(**shared.deref(), 5);
    assert_eq!(loaned::take(shared, &mut ()), Box::new(5));
    let exclusive = LoanedMut::<Box<u16>>::from(Box::new(LoanedMut::new(6u16)));
    assert_eq!(loaned::take(exclusive, &mut ()), Box::new(6));
}

#[test]
fn vector_of_handles_keeps_its_order() {
    let handles: Vec<LoanedMut<u32>> = vec![LoanedMut::new(1), LoanedMut::new(2), LoanedMut::new(3), LoanedMut::new(4)];
    let whole: LoanedMut<Vec<u32>> = handles.into();
    assert_eq!(loaned::take(whole, &mut ()), vec![1, 2, 3, 4]);
    let shared: Vec<Loaned<char>> = vec![Loaned::new('a'), Loaned::new('b')];
    let whole: Loaned<Vec<char>> = shared.into();
    assert_eq!(loaned::take(whole, &mut ()), vec!['a', 'b']);
}

#[test]
fn empty_vector_of_handles() {
    let handles: Vec<LoanedMut<u32>> = Vec::new();
    let whole: LoanedMut<Vec<u32>> = handles.into();
    assert_eq!(loaned::take(whole, &mut ()), Vec::<u32>::new());
}

#[test]
fn array_of_handles_keeps_its_order() {
    let whole: LoanedMut<[u8; 3]> = [LoanedMut::new(7), LoanedMut::new(8), LoanedMut::new(9)].into();
    assert_eq!(loaned::take(whole, &mut ()), [7, 8, 9]);
    let shared: Loaned<[&str; 2]> = [Loaned::new("x"), Loaned::new("y")].into();
    assert_eq!(loaned::take(shared, &mut ()), ["x", "y"]);
    let nothing: [LoanedMut<u8>; 0] = [];
    let none: LoanedMut<[u8; 0]> = nothing.into();
    assert_eq!(loaned::take(none, &mut ()), [0u8; 0]);
}

#[test]
fn array_of_loans_keeps_its_references() {
    let mut heap = Heap::new();
    let (mut r0, h0) = LoanedMut::loan(heap.allocate(0));
    let (mut r1, h1) = LoanedMut::loan(heap.allocate(0));
    let whole: LoanedMut<[Boxed; 2]> = [h0, h1].into();
    heap.write(&mut r1, 2);
    heap.write(&mut r0, 1);
    let owners = loaned::take(whole, &mut ());
    assert_eq!((*heap.get(&owners[0]), *heap.get(&owners[1])), (1, 2));
}

#[test]
fn tuples_of_handles() {
    let one: LoanedMut<(u8,)> = (LoanedMut::new(1u8),).into();
    assert_eq!(loaned::take(one, &mut ()), (1,));
    let three: Loaned<(u8, char, &str)> = (Loaned::new(1u8), Loaned::new('b'), Loaned::new("c")).into();
    assert_eq!(loaned::take(three, &mut ()), (1, 'b', "c"));
    let ten: LoanedMut<(u8, u8, u8, u8, u8, u8, u8, u8, u8, u8)> = (
        LoanedMut::new(0u8),
        LoanedMut::new(1u8),
        LoanedMut::new(2u8),
        LoanedMut::new(3u8),
        LoanedMut::new(4u8),
        LoanedMut::new(5u8),
        LoanedMut::new(6u8),
        LoanedMut::new(7u8),
        LoanedMut::new(8u8),
        LoanedMut::new(9u8),
    )
        .into();
    assert_eq!(loaned::take(ten, &mut ()), (0, 1, 2, 3, 4, 5, 6, 7, 8, 9));
}
