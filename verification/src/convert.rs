use vstd::prelude::*;
use vstd::std_specs::convert::FromSpecImpl;
use crate::loaned::Loaned;
use crate::loaned_mut::LoanedMut;

verus! {

/// Applies `f` to each item of a vector: the result has, at each index,
/// what `f` returned for the item at that index.
fn map_vec<A, B, F: Fn(A) -> B>(items: Vec<A>, f: F) -> (mapped: Vec<B>)
    requires
        forall|i: int| 0 <= i < items@.len() ==> call_requires(f, (#[trigger] items@[i],)),
    ensures
        mapped@.len() == items@.len(),
        forall|i: int|
            0 <= i < items@.len() ==> call_ensures(f, (items@[i],), #[trigger] mapped@[i]),
{
    let mut rest = items;
    let mut reversed: Vec<B> = Vec::new();
    while rest.len() > 0
        invariant
            rest@.len() + reversed@.len() == items@.len(),
            rest@ == items@.take(rest@.len() as int),
            forall|i: int| 0 <= i < items@.len() ==> call_requires(f, (#[trigger] items@[i],)),
            forall|k: int|
                0 <= k < reversed@.len() ==> call_ensures(
                    f,
                    (items@[items@.len() - 1 - k],),
                    #[trigger] reversed@[k],
                ),
        decreases rest@.len(),
    {
        let item = rest.pop().unwrap();
        reversed.push(f(item));
    }
    let mut mapped: Vec<B> = Vec::new();
    while reversed.len() > 0
        invariant
            mapped@.len() + reversed@.len() == items@.len(),
            forall|k: int|
                0 <= k < reversed@.len() ==> call_ensures(
                    f,
                    (items@[items@.len() - 1 - k],),
                    #[trigger] reversed@[k],
                ),
            forall|i: int|
                0 <= i < mapped@.len() ==> call_ensures(f, (items@[i],), #[trigger] mapped@[i]),
        decreases reversed@.len(),
    {
        let ghost last: int = reversed@.len() - 1;
        assert(call_ensures(f, (items@[items@.len() - 1 - last],), reversed@[last]));
        let output = reversed.pop().unwrap();
        mapped.push(output);
    }
    mapped
}

/// `map` of std's arrays, believed and not proved: the result has, at each
/// index, what `f` returns for the item at that index.
#[verifier::external_body]
fn map_array<A, B, F: Fn(A) -> B, const N: usize>(items: [A; N], f: F) -> (mapped: [B; N])
    requires
        forall|i: int| 0 <= i < N ==> call_requires(f, (#[trigger] items@[i],)),
    ensures
        forall|i: int| 0 <= i < N ==> call_ensures(f, (items@[i],), #[trigger] mapped@[i]),
{
    items.map(f)
}

/// A boxed shared loan becomes a shared loan of the box: the payload is the
/// one owned before, boxed.
impl<'t, T> From<Box<Loaned<'t, T>>> for Loaned<'t, Box<T>> {
    fn from(value: Box<Loaned<'t, T>>) -> (loaned: Self)
        ensures
            *loaned@ == (*value)@,
    {
        let inner: Loaned<'t, T> = *value;
        Loaned::new(Box::new(inner.into_raw().into_inner()))
    }
}

impl<'t, T> FromSpecImpl<Box<Loaned<'t, T>>> for Loaned<'t, Box<T>> {
    open spec fn obeys_from_spec() -> bool {
        false
    }

    open spec fn from_spec(value: Box<Loaned<'t, T>>) -> Self {
        arbitrary()
    }
}

/// A vector of shared loans becomes one shared loan of the vector of their
/// payloads, in the same order.
impl<'t, T> From<Vec<Loaned<'t, T>>> for Loaned<'t, Vec<T>> {
    fn from(value: Vec<Loaned<'t, T>>) -> (loaned: Self)
        ensures
            loaned@@ == value@.map_values(|h: Loaned<'t, T>| h@),
    {
        let unwrap = |handle: Loaned<'t, T>| -> (payload: T)
            ensures
                payload == handle@,
            { handle.into_raw().into_inner() };
        let payloads = map_vec(value, unwrap);
        assert(payloads@ =~= value@.map_values(|h: Loaned<'t, T>| h@));
        Loaned::new(payloads)
    }
}

impl<'t, T> FromSpecImpl<Vec<Loaned<'t, T>>> for Loaned<'t, Vec<T>> {
    open spec fn obeys_from_spec() -> bool {
        false
    }

    open spec fn from_spec(value: Vec<Loaned<'t, T>>) -> Self {
        arbitrary()
    }
}

/// An array of shared loans becomes one shared loan of the array of their
/// payloads, index by index.
impl<'t, T, const N: usize> From<[Loaned<'t, T>; N]> for Loaned<'t, [T; N]> {
    fn from(value: [Loaned<'t, T>; N]) -> (loaned: Self)
        ensures
            forall|i: int| 0 <= i < N ==> loaned@@[i] == (#[trigger] value@[i])@,
    {
        let unwrap = |handle: Loaned<'t, T>| -> (payload: T)
            ensures
                payload == handle@,
            { handle.into_raw().into_inner() };
        Loaned::new(map_array(value, unwrap))
    }
}

impl<'t, T, const N: usize> FromSpecImpl<[Loaned<'t, T>; N]> for Loaned<'t, [T; N]> {
    open spec fn obeys_from_spec() -> bool {
        false
    }

    open spec fn from_spec(value: [Loaned<'t, T>; N]) -> Self {
        arbitrary()
    }
}

/// A tuple of one shared loan becomes one shared loan of the tuple of
/// its payload.
impl<'t, A> From<(Loaned<'t, A>,)> for Loaned<'t, (A,)> {
    fn from(value: (Loaned<'t, A>,)) -> (loaned: Self)
        ensures
            loaned@.0 == value.0@,
    {
        Loaned::new((value.0.into_raw().into_inner(),))
    }
}

impl<'t, A> FromSpecImpl<(Loaned<'t, A>,)> for Loaned<'t, (A,)> {
    open spec fn obeys_from_spec() -> bool {
        false
    }

    open spec fn from_spec(value: (Loaned<'t, A>,)) -> Self {
        arbitrary()
    }
}

/// A tuple of two shared loans becomes one shared loan of the tuple of
/// their payloads.
impl<'t, A, B> From<(Loaned<'t, A>, Loaned<'t, B>)> for Loaned<'t, (A, B)> {
    fn from(value: (Loaned<'t, A>, Loaned<'t, B>)) -> (loaned: Self)
        ensures
            loaned@.0 == value.0@,
            loaned@.1 == value.1@,
    {
        Loaned::new((value.0.into_raw().into_inner(), value.1.into_raw().into_inner()))
    }
}

impl<'t, A, B> FromSpecImpl<(Loaned<'t, A>, Loaned<'t, B>)> for Loaned<'t, (A, B)> {
    open spec fn obeys_from_spec() -> bool {
        false
    }

    open spec fn from_spec(value: (Loaned<'t, A>, Loaned<'t, B>)) -> Self {
        arbitrary()
    }
}

/// A tuple of three shared loans becomes one shared loan of the tuple of
/// their payloads.
impl<'t, A, B, C> From<(Loaned<'t, A>, Loaned<'t, B>, Loaned<'t, C>)> for Loaned<'t, (A, B, C)> {
    fn from(value: (Loaned<'t, A>, Loaned<'t, B>, Loaned<'t, C>)) -> (loaned: Self)
        ensures
            loaned@.0 == value.0@,
            loaned@.1 == value.1@,
            loaned@.2 == value.2@,
    {
        Loaned::new((value.0.into_raw().into_inner(), value.1.into_raw().into_inner(), value.2.into_raw().into_inner()))
    }
}

impl<'t, A, B, C> FromSpecImpl<(Loaned<'t, A>, Loaned<'t, B>, Loaned<'t, C>)> for Loaned<'t, (A, B, C)> {
    open spec fn obeys_from_spec() -> bool {
        false
    }

    open spec fn from_spec(value: (Loaned<'t, A>, Loaned<'t, B>, Loaned<'t, C>)) -> Self {
        arbitrary()
    }
}

/// A tuple of four shared loans becomes one shared loan of the tuple of
/// their payloads.
impl<'t, A, B, C, D> From<(Loaned<'t, A>, Loaned<'t, B>, Loaned<'t, C>, Loaned<'t, D>)> for Loaned<'t, (A, B, C, D)> {
    fn from(value: (Loaned<'t, A>, Loaned<'t, B>, Loaned<'t, C>, Loaned<'t, D>)) -> (loaned: Self)
        ensures
            loaned@.0 == value.0@,
            loaned@.1 == value.1@,
            loaned@.2 == value.2@,
            loaned@.3 == value.3@,
    {
        Loaned::new((value.0.into_raw().into_inner(), value.1.into_raw().into_inner(), value.2.into_raw().into_inner(), value.3.into_raw().into_inner()))
    }
}

impl<'t, A, B, C, D> FromSpecImpl<(Loaned<'t, A>, Loaned<'t, B>, Loaned<'t, C>, Loaned<'t, D>)> for Loaned<'t, (A, B, C, D)> {
    open spec fn obeys_from_spec() -> bool {
        false
    }

    open spec fn from_spec(value: (Loaned<'t, A>, Loaned<'t, B>, Loaned<'t, C>, Loaned<'t, D>)) -> Self {
        arbitrary()
    }
}

/// A tuple of five shared loans becomes one shared loan of the tuple of
/// their payloads.
impl<'t, A, B, C, D, E> From<(Loaned<'t, A>, Loaned<'t, B>, Loaned<'t, C>, Loaned<'t, D>, Loaned<'t, E>)> for Loaned<'t, (A, B, C, D, E)> {
    fn from(value: (Loaned<'t, A>, Loaned<'t, B>, Loaned<'t, C>, Loaned<'t, D>, Loaned<'t, E>)) -> (loaned: Self)
        ensures
            loaned@.0 == value.0@,
            loaned@.1 == value.1@,
            loaned@.2 == value.2@,
            loaned@.3 == value.3@,
            loaned@.4 == value.4@,
    {
        Loaned::new((value.0.into_raw().into_inner(), value.1.into_raw().into_inner(), value.2.into_raw().into_inner(), value.3.into_raw().into_inner(), value.4.into_raw().into_inner()))
    }
}

impl<'t, A, B, C, D, E> FromSpecImpl<(Loaned<'t, A>, Loaned<'t, B>, Loaned<'t, C>, Loaned<'t, D>, Loaned<'t, E>)> for Loaned<'t, (A, B, C, D, E)> {
    open spec fn obeys_from_spec() -> bool {
        false
    }

    open spec fn from_spec(value: (Loaned<'t, A>, Loaned<'t, B>, Loaned<'t, C>, Loaned<'t, D>, Loaned<'t, E>)) -> Self {
        arbitrary()
    }
}

/// A tuple of six shared loans becomes one shared loan of the tuple of
/// their payloads.
impl<'t, A, B, C, D, E, F> From<(Loaned<'t, A>, Loaned<'t, B>, Loaned<'t, C>, Loaned<'t, D>, Loaned<'t, E>, Loaned<'t, F>)> for Loaned<'t, (A, B, C, D, E, F)> {
    fn from(value: (Loaned<'t, A>, Loaned<'t, B>, Loaned<'t, C>, Loaned<'t, D>, Loaned<'t, E>, Loaned<'t, F>)) -> (loaned: Self)
        ensures
            loaned@.0 == value.0@,
            loaned@.1 == value.1@,
            loaned@.2 == value.2@,
            loaned@.3 == value.3@,
            loaned@.4 == value.4@,
            loaned@.5 == value.5@,
    {
        Loaned::new((value.0.into_raw().into_inner(), value.1.into_raw().into_inner(), value.2.into_raw().into_inner(), value.3.into_raw().into_inner(), value.4.into_raw().into_inner(), value.5.into_raw().into_inner()))
    }
}

impl<'t, A, B, C, D, E, F> FromSpecImpl<(Loaned<'t, A>, Loaned<'t, B>, Loaned<'t, C>, Loaned<'t, D>, Loaned<'t, E>, Loaned<'t, F>)> for Loaned<'t, (A, B, C, D, E, F)> {
    open spec fn obeys_from_spec() -> bool {
        false
    }

    open spec fn from_spec(value: (Loaned<'t, A>, Loaned<'t, B>, Loaned<'t, C>, Loaned<'t, D>, Loaned<'t, E>, Loaned<'t, F>)) -> Self {
        arbitrary()
    }
}

/// A tuple of seven shared loans becomes one shared loan of the tuple of
/// their payloads.
impl<'t, A, B, C, D, E, F, G> From<(Loaned<'t, A>, Loaned<'t, B>, Loaned<'t, C>, Loaned<'t, D>, Loaned<'t, E>, Loaned<'t, F>, Loaned<'t, G>)> for Loaned<'t, (A, B, C, D, E, F, G)> {
    fn from(value: (Loaned<'t, A>, Loaned<'t, B>, Loaned<'t, C>, Loaned<'t, D>, Loaned<'t, E>, Loaned<'t, F>, Loaned<'t, G>)) -> (loaned: Self)
        ensures
            loaned@.0 == value.0@,
            loaned@.1 == value.1@,
            loaned@.2 == value.2@,
            loaned@.3 == value.3@,
            loaned@.4 == value.4@,
            loaned@.5 == value.5@,
            loaned@.6 == value.6@,
    {
        Loaned::new((value.0.into_raw().into_inner(), value.1.into_raw().into_inner(), value.2.into_raw().into_inner(), value.3.into_raw().into_inner(), value.4.into_raw().into_inner(), value.5.into_raw().into_inner(), value.6.into_raw().into_inner()))
    }
}

impl<'t, A, B, C, D, E, F, G> FromSpecImpl<(Loaned<'t, A>, Loaned<'t, B>, Loaned<'t, C>, Loaned<'t, D>, Loaned<'t, E>, Loaned<'t, F>, Loaned<'t, G>)> for Loaned<'t, (A, B, C, D, E, F, G)> {
    open spec fn obeys_from_spec() -> bool {
        false
    }

    open spec fn from_spec(value: (Loaned<'t, A>, Loaned<'t, B>, Loaned<'t, C>, Loaned<'t, D>, Loaned<'t, E>, Loaned<'t, F>, Loaned<'t, G>)) -> Self {
        arbitrary()
    }
}

/// A tuple of eight shared loans becomes one shared loan of the tuple of
/// their payloads.
impl<'t, A, B, C, D, E, F, G, H> From<(Loaned<'t, A>, Loaned<'t, B>, Loaned<'t, C>, Loaned<'t, D>, Loaned<'t, E>, Loaned<'t, F>, Loaned<'t, G>, Loaned<'t, H>)> for Loaned<'t, (A, B, C, D, E, F, G, H)> {
    fn from(value: (Loaned<'t, A>, Loaned<'t, B>, Loaned<'t, C>, Loaned<'t, D>, Loaned<'t, E>, Loaned<'t, F>, Loaned<'t, G>, Loaned<'t, H>)) -> (loaned: Self)
        ensures
            loaned@.0 == value.0@,
            loaned@.1 == value.1@,
            loaned@.2 == value.2@,
            loaned@.3 == value.3@,
            loaned@.4 == value.4@,
            loaned@.5 == value.5@,
            loaned@.6 == value.6@,
            loaned@.7 == value.7@,
    {
        Loaned::new((value.0.into_raw().into_inner(), value.1.into_raw().into_inner(), value.2.into_raw().into_inner(), value.3.into_raw().into_inner(), value.4.into_raw().into_inner(), value.5.into_raw().into_inner(), value.6.into_raw().into_inner(), value.7.into_raw().into_inner()))
    }
}

impl<'t, A, B, C, D, E, F, G, H> FromSpecImpl<(Loaned<'t, A>, Loaned<'t, B>, Loaned<'t, C>, Loaned<'t, D>, Loaned<'t, E>, Loaned<'t, F>, Loaned<'t, G>, Loaned<'t, H>)> for Loaned<'t, (A, B, C, D, E, F, G, H)> {
    open spec fn obeys_from_spec() -> bool {
        false
    }

    open spec fn from_spec(value: (Loaned<'t, A>, Loaned<'t, B>, Loaned<'t, C>, Loaned<'t, D>, Loaned<'t, E>, Loaned<'t, F>, Loaned<'t, G>, Loaned<'t, H>)) -> Self {
        arbitrary()
    }
}

/// A tuple of nine shared loans becomes one shared loan of the tuple of
/// their payloads.
impl<'t, A, B, C, D, E, F, G, H, I> From<(Loaned<'t, A>, Loaned<'t, B>, Loaned<'t, C>, Loaned<'t, D>, Loaned<'t, E>, Loaned<'t, F>, Loaned<'t, G>, Loaned<'t, H>, Loaned<'t, I>)> for Loaned<'t, (A, B, C, D, E, F, G, H, I)> {
    fn from(value: (Loaned<'t, A>, Loaned<'t, B>, Loaned<'t, C>, Loaned<'t, D>, Loaned<'t, E>, Loaned<'t, F>, Loaned<'t, G>, Loaned<'t, H>, Loaned<'t, I>)) -> (loaned: Self)
        ensures
            loaned@.0 == value.0@,
            loaned@.1 == value.1@,
            loaned@.2 == value.2@,
            loaned@.3 == value.3@,
            loaned@.4 == value.4@,
            loaned@.5 == value.5@,
            loaned@.6 == value.6@,
            loaned@.7 == value.7@,
            loaned@.8 == value.8@,
    {
        Loaned::new((value.0.into_raw().into_inner(), value.1.into_raw().into_inner(), value.2.into_raw().into_inner(), value.3.into_raw().into_inner(), value.4.into_raw().into_inner(), value.5.into_raw().into_inner(), value.6.into_raw().into_inner(), value.7.into_raw().into_inner(), value.8.into_raw().into_inner()))
    }
}

impl<'t, A, B, C, D, E, F, G, H, I> FromSpecImpl<(Loaned<'t, A>, Loaned<'t, B>, Loaned<'t, C>, Loaned<'t, D>, Loaned<'t, E>, Loaned<'t, F>, Loaned<'t, G>, Loaned<'t, H>, Loaned<'t, I>)> for Loaned<'t, (A, B, C, D, E, F, G, H, I)> {
    open spec fn obeys_from_spec() -> bool {
        false
    }

    open spec fn from_spec(value: (Loaned<'t, A>, Loaned<'t, B>, Loaned<'t, C>, Loaned<'t, D>, Loaned<'t, E>, Loaned<'t, F>, Loaned<'t, G>, Loaned<'t, H>, Loaned<'t, I>)) -> Self {
        arbitrary()
    }
}

/// A tuple of ten shared loans becomes one shared loan of the tuple of
/// their payloads.
impl<'t, A, B, C, D, E, F, G, H, I, J> From<(Loaned<'t, A>, Loaned<'t, B>, Loaned<'t, C>, Loaned<'t, D>, Loaned<'t, E>, Loaned<'t, F>, Loaned<'t, G>, Loaned<'t, H>, Loaned<'t, I>, Loaned<'t, J>)> for Loaned<'t, (A, B, C, D, E, F, G, H, I, J)> {
    fn from(value: (Loaned<'t, A>, Loaned<'t, B>, Loaned<'t, C>, Loaned<'t, D>, Loaned<'t, E>, Loaned<'t, F>, Loaned<'t, G>, Loaned<'t, H>, Loaned<'t, I>, Loaned<'t, J>)) -> (loaned: Self)
        ensures
            loaned@.0 == value.0@,
            loaned@.1 == value.1@,
            loaned@.2 == value.2@,
            loaned@.3 == value.3@,
            loaned@.4 == value.4@,
            loaned@.5 == value.5@,
            loaned@.6 == value.6@,
            loaned@.7 == value.7@,
            loaned@.8 == value.8@,
            loaned@.9 == value.9@,
    {
        Loaned::new((value.0.into_raw().into_inner(), value.1.into_raw().into_inner(), value.2.into_raw().into_inner(), value.3.into_raw().into_inner(), value.4.into_raw().into_inner(), value.5.into_raw().into_inner(), value.6.into_raw().into_inner(), value.7.into_raw().into_inner(), value.8.into_raw().into_inner(), value.9.into_raw().into_inner()))
    }
}

impl<'t, A, B, C, D, E, F, G, H, I, J> FromSpecImpl<(Loaned<'t, A>, Loaned<'t, B>, Loaned<'t, C>, Loaned<'t, D>, Loaned<'t, E>, Loaned<'t, F>, Loaned<'t, G>, Loaned<'t, H>, Loaned<'t, I>, Loaned<'t, J>)> for Loaned<'t, (A, B, C, D, E, F, G, H, I, J)> {
    open spec fn obeys_from_spec() -> bool {
        false
    }

    open spec fn from_spec(value: (Loaned<'t, A>, Loaned<'t, B>, Loaned<'t, C>, Loaned<'t, D>, Loaned<'t, E>, Loaned<'t, F>, Loaned<'t, G>, Loaned<'t, H>, Loaned<'t, I>, Loaned<'t, J>)) -> Self {
        arbitrary()
    }
}

/// A boxed mutable loan becomes a mutable loan of the box: the payload is the
/// one owned before, boxed.
impl<'t, T> From<Box<LoanedMut<'t, T>>> for LoanedMut<'t, Box<T>> {
    fn from(value: Box<LoanedMut<'t, T>>) -> (loaned: Self)
        ensures
            *loaned@ == (*value)@,
    {
        let inner: LoanedMut<'t, T> = *value;
        LoanedMut::new(Box::new(inner.into_raw().into_inner()))
    }
}

impl<'t, T> FromSpecImpl<Box<LoanedMut<'t, T>>> for LoanedMut<'t, Box<T>> {
    open spec fn obeys_from_spec() -> bool {
        false
    }

    open spec fn from_spec(value: Box<LoanedMut<'t, T>>) -> Self {
        arbitrary()
    }
}

/// A vector of mutable loans becomes one mutable loan of the vector of their
/// payloads, in the same order.
impl<'t, T> From<Vec<LoanedMut<'t, T>>> for LoanedMut<'t, Vec<T>> {
    fn from(value: Vec<LoanedMut<'t, T>>) -> (loaned: Self)
        ensures
            loaned@@ == value@.map_values(|h: LoanedMut<'t, T>| h@),
    {
        let unwrap = |handle: LoanedMut<'t, T>| -> (payload: T)
            ensures
                payload == handle@,
            { handle.into_raw().into_inner() };
        let payloads = map_vec(value, unwrap);
        assert(payloads@ =~= value@.map_values(|h: LoanedMut<'t, T>| h@));
        LoanedMut::new(payloads)
    }
}

impl<'t, T> FromSpecImpl<Vec<LoanedMut<'t, T>>> for LoanedMut<'t, Vec<T>> {
    open spec fn obeys_from_spec() -> bool {
        false
    }

    open spec fn from_spec(value: Vec<LoanedMut<'t, T>>) -> Self {
        arbitrary()
    }
}

/// An array of mutable loans becomes one mutable loan of the array of their
/// payloads, index by index.
impl<'t, T, const N: usize> From<[LoanedMut<'t, T>; N]> for LoanedMut<'t, [T; N]> {
    fn from(value: [LoanedMut<'t, T>; N]) -> (loaned: Self)
        ensures
            forall|i: int| 0 <= i < N ==> loaned@@[i] == (#[trigger] value@[i])@,
    {
        let unwrap = |handle: LoanedMut<'t, T>| -> (payload: T)
            ensures
                payload == handle@,
            { handle.into_raw().into_inner() };
        LoanedMut::new(map_array(value, unwrap))
    }
}

impl<'t, T, const N: usize> FromSpecImpl<[LoanedMut<'t, T>; N]> for LoanedMut<'t, [T; N]> {
    open spec fn obeys_from_spec() -> bool {
        false
    }

    open spec fn from_spec(value: [LoanedMut<'t, T>; N]) -> Self {
        arbitrary()
    }
}

/// A tuple of one mutable loan becomes one mutable loan of the tuple of
/// its payload.
impl<'t, A> From<(LoanedMut<'t, A>,)> for LoanedMut<'t, (A,)> {
    fn from(value: (LoanedMut<'t, A>,)) -> (loaned: Self)
        ensures
            loaned@.0 == value.0@,
    {
        LoanedMut::new((value.0.into_raw().into_inner(),))
    }
}

impl<'t, A> FromSpecImpl<(LoanedMut<'t, A>,)> for LoanedMut<'t, (A,)> {
    open spec fn obeys_from_spec() -> bool {
        false
    }

    open spec fn from_spec(value: (LoanedMut<'t, A>,)) -> Self {
        arbitrary()
    }
}

/// A tuple of two mutable loans becomes one mutable loan of the tuple of
/// their payloads.
impl<'t, A, B> From<(LoanedMut<'t, A>, LoanedMut<'t, B>)> for LoanedMut<'t, (A, B)> {
    fn from(value: (LoanedMut<'t, A>, LoanedMut<'t, B>)) -> (loaned: Self)
        ensures
            loaned@.0 == value.0@,
            loaned@.1 == value.1@,
    {
        LoanedMut::new((value.0.into_raw().into_inner(), value.1.into_raw().into_inner()))
    }
}

impl<'t, A, B> FromSpecImpl<(LoanedMut<'t, A>, LoanedMut<'t, B>)> for LoanedMut<'t, (A, B)> {
    open spec fn obeys_from_spec() -> bool {
        false
    }

    open spec fn from_spec(value: (LoanedMut<'t, A>, LoanedMut<'t, B>)) -> Self {
        arbitrary()
    }
}

/// A tuple of three mutable loans becomes one mutable loan of the tuple of
/// their payloads.
impl<'t, A, B, C> From<(LoanedMut<'t, A>, LoanedMut<'t, B>, LoanedMut<'t, C>)> for LoanedMut<'t, (A, B, C)> {
    fn from(value: (LoanedMut<'t, A>, LoanedMut<'t, B>, LoanedMut<'t, C>)) -> (loaned: Self)
        ensures
            loaned@.0 == value.0@,
            loaned@.1 == value.1@,
            loaned@.2 == value.2@,
    {
        LoanedMut::new((value.0.into_raw().into_inner(), value.1.into_raw().into_inner(), value.2.into_raw().into_inner()))
    }
}

impl<'t, A, B, C> FromSpecImpl<(LoanedMut<'t, A>, LoanedMut<'t, B>, LoanedMut<'t, C>)> for LoanedMut<'t, (A, B, C)> {
    open spec fn obeys_from_spec() -> bool {
        false
    }

    open spec fn from_spec(value: (LoanedMut<'t, A>, LoanedMut<'t, B>, LoanedMut<'t, C>)) -> Self {
        arbitrary()
    }
}

/// A tuple of four mutable loans becomes one mutable loan of the tuple of
/// their payloads.
impl<'t, A, B, C, D> From<(LoanedMut<'t, A>, LoanedMut<'t, B>, LoanedMut<'t, C>, LoanedMut<'t, D>)> for LoanedMut<'t, (A, B, C, D)> {
    fn from(value: (LoanedMut<'t, A>, LoanedMut<'t, B>, LoanedMut<'t, C>, LoanedMut<'t, D>)) -> (loaned: Self)
        ensures
            loaned@.0 == value.0@,
            loaned@.1 == value.1@,
            loaned@.2 == value.2@,
            loaned@.3 == value.3@,
    {
        LoanedMut::new((value.0.into_raw().into_inner(), value.1.into_raw().into_inner(), value.2.into_raw().into_inner(), value.3.into_raw().into_inner()))
    }
}

impl<'t, A, B, C, D> FromSpecImpl<(LoanedMut<'t, A>, LoanedMut<'t, B>, LoanedMut<'t, C>, LoanedMut<'t, D>)> for LoanedMut<'t, (A, B, C, D)> {
    open spec fn obeys_from_spec() -> bool {
        false
    }

    open spec fn from_spec(value: (LoanedMut<'t, A>, LoanedMut<'t, B>, LoanedMut<'t, C>, LoanedMut<'t, D>)) -> Self {
        arbitrary()
    }
}

/// A tuple of five mutable loans becomes one mutable loan of the tuple of
/// their payloads.
impl<'t, A, B, C, D, E> From<(LoanedMut<'t, A>, LoanedMut<'t, B>, LoanedMut<'t, C>, LoanedMut<'t, D>, LoanedMut<'t, E>)> for LoanedMut<'t, (A, B, C, D, E)> {
    fn from(value: (LoanedMut<'t, A>, LoanedMut<'t, B>, LoanedMut<'t, C>, LoanedMut<'t, D>, LoanedMut<'t, E>)) -> (loaned: Self)
        ensures
            loaned@.0 == value.0@,
            loaned@.1 == value.1@,
            loaned@.2 == value.2@,
            loaned@.3 == value.3@,
            loaned@.4 == value.4@,
    {
        LoanedMut::new((value.0.into_raw().into_inner(), value.1.into_raw().into_inner(), value.2.into_raw().into_inner(), value.3.into_raw().into_inner(), value.4.into_raw().into_inner()))
    }
}

impl<'t, A, B, C, D, E> FromSpecImpl<(LoanedMut<'t, A>, LoanedMut<'t, B>, LoanedMut<'t, C>, LoanedMut<'t, D>, LoanedMut<'t, E>)> for LoanedMut<'t, (A, B, C, D, E)> {
    open spec fn obeys_from_spec() -> bool {
        false
    }

    open spec fn from_spec(value: (LoanedMut<'t, A>, LoanedMut<'t, B>, LoanedMut<'t, C>, LoanedMut<'t, D>, LoanedMut<'t, E>)) -> Self {
        arbitrary()
    }
}

/// A tuple of six mutable loans becomes one mutable loan of the tuple of
/// their payloads.
impl<'t, A, B, C, D, E, F> From<(LoanedMut<'t, A>, LoanedMut<'t, B>, LoanedMut<'t, C>, LoanedMut<'t, D>, LoanedMut<'t, E>, LoanedMut<'t, F>)> for LoanedMut<'t, (A, B, C, D, E, F)> {
    fn from(value: (LoanedMut<'t, A>, LoanedMut<'t, B>, LoanedMut<'t, C>, LoanedMut<'t, D>, LoanedMut<'t, E>, LoanedMut<'t, F>)) -> (loaned: Self)
        ensures
            loaned@.0 == value.0@,
            loaned@.1 == value.1@,
            loaned@.2 == value.2@,
            loaned@.3 == value.3@,
            loaned@.4 == value.4@,
            loaned@.5 == value.5@,
    {
        LoanedMut::new((value.0.into_raw().into_inner(), value.1.into_raw().into_inner(), value.2.into_raw().into_inner(), value.3.into_raw().into_inner(), value.4.into_raw().into_inner(), value.5.into_raw().into_inner()))
    }
}

impl<'t, A, B, C, D, E, F> FromSpecImpl<(LoanedMut<'t, A>, LoanedMut<'t, B>, LoanedMut<'t, C>, LoanedMut<'t, D>, LoanedMut<'t, E>, LoanedMut<'t, F>)> for LoanedMut<'t, (A, B, C, D, E, F)> {
    open spec fn obeys_from_spec() -> bool {
        false
    }

    open spec fn from_spec(value: (LoanedMut<'t, A>, LoanedMut<'t, B>, LoanedMut<'t, C>, LoanedMut<'t, D>, LoanedMut<'t, E>, LoanedMut<'t, F>)) -> Self {
        arbitrary()
    }
}

/// A tuple of seven mutable loans becomes one mutable loan of the tuple of
/// their payloads.
impl<'t, A, B, C, D, E, F, G> From<(LoanedMut<'t, A>, LoanedMut<'t, B>, LoanedMut<'t, C>, LoanedMut<'t, D>, LoanedMut<'t, E>, LoanedMut<'t, F>, LoanedMut<'t, G>)> for LoanedMut<'t, (A, B, C, D, E, F, G)> {
    fn from(value: (LoanedMut<'t, A>, LoanedMut<'t, B>, LoanedMut<'t, C>, LoanedMut<'t, D>, LoanedMut<'t, E>, LoanedMut<'t, F>, LoanedMut<'t, G>)) -> (loaned: Self)
        ensures
            loaned@.0 == value.0@,
            loaned@.1 == value.1@,
            loaned@.2 == value.2@,
            loaned@.3 == value.3@,
            loaned@.4 == value.4@,
            loaned@.5 == value.5@,
            loaned@.6 == value.6@,
    {
        LoanedMut::new((value.0.into_raw().into_inner(), value.1.into_raw().into_inner(), value.2.into_raw().into_inner(), value.3.into_raw().into_inner(), value.4.into_raw().into_inner(), value.5.into_raw().into_inner(), value.6.into_raw().into_inner()))
    }
}

impl<'t, A, B, C, D, E, F, G> FromSpecImpl<(LoanedMut<'t, A>, LoanedMut<'t, B>, LoanedMut<'t, C>, LoanedMut<'t, D>, LoanedMut<'t, E>, LoanedMut<'t, F>, LoanedMut<'t, G>)> for LoanedMut<'t, (A, B, C, D, E, F, G)> {
    open spec fn obeys_from_spec() -> bool {
        false
    }

    open spec fn from_spec(value: (LoanedMut<'t, A>, LoanedMut<'t, B>, LoanedMut<'t, C>, LoanedMut<'t, D>, LoanedMut<'t, E>, LoanedMut<'t, F>, LoanedMut<'t, G>)) -> Self {
        arbitrary()
    }
}

/// A tuple of eight mutable loans becomes one mutable loan of the tuple of
/// their payloads.
impl<'t, A, B, C, D, E, F, G, H> From<(LoanedMut<'t, A>, LoanedMut<'t, B>, LoanedMut<'t, C>, LoanedMut<'t, D>, LoanedMut<'t, E>, LoanedMut<'t, F>, LoanedMut<'t, G>, LoanedMut<'t, H>)> for LoanedMut<'t, (A, B, C, D, E, F, G, H)> {
    fn from(value: (LoanedMut<'t, A>, LoanedMut<'t, B>, LoanedMut<'t, C>, LoanedMut<'t, D>, LoanedMut<'t, E>, LoanedMut<'t, F>, LoanedMut<'t, G>, LoanedMut<'t, H>)) -> (loaned: Self)
        ensures
            loaned@.0 == value.0@,
            loaned@.1 == value.1@,
            loaned@.2 == value.2@,
            loaned@.3 == value.3@,
            loaned@.4 == value.4@,
            loaned@.5 == value.5@,
            loaned@.6 == value.6@,
            loaned@.7 == value.7@,
    {
        LoanedMut::new((value.0.into_raw().into_inner(), value.1.into_raw().into_inner(), value.2.into_raw().into_inner(), value.3.into_raw().into_inner(), value.4.into_raw().into_inner(), value.5.into_raw().into_inner(), value.6.into_raw().into_inner(), value.7.into_raw().into_inner()))
    }
}

impl<'t, A, B, C, D, E, F, G, H> FromSpecImpl<(LoanedMut<'t, A>, LoanedMut<'t, B>, LoanedMut<'t, C>, LoanedMut<'t, D>, LoanedMut<'t, E>, LoanedMut<'t, F>, LoanedMut<'t, G>, LoanedMut<'t, H>)> for LoanedMut<'t, (A, B, C, D, E, F, G, H)> {
    open spec fn obeys_from_spec() -> bool {
        false
    }

    open spec fn from_spec(value: (LoanedMut<'t, A>, LoanedMut<'t, B>, LoanedMut<'t, C>, LoanedMut<'t, D>, LoanedMut<'t, E>, LoanedMut<'t, F>, LoanedMut<'t, G>, LoanedMut<'t, H>)) -> Self {
        arbitrary()
    }
}

/// A tuple of nine mutable loans becomes one mutable loan of the tuple of
/// their payloads.
impl<'t, A, B, C, D, E, F, G, H, I> From<(LoanedMut<'t, A>, LoanedMut<'t, B>, LoanedMut<'t, C>, LoanedMut<'t, D>, LoanedMut<'t, E>, LoanedMut<'t, F>, LoanedMut<'t, G>, LoanedMut<'t, H>, LoanedMut<'t, I>)> for LoanedMut<'t, (A, B, C, D, E, F, G, H, I)> {
    fn from(value: (LoanedMut<'t, A>, LoanedMut<'t, B>, LoanedMut<'t, C>, LoanedMut<'t, D>, LoanedMut<'t, E>, LoanedMut<'t, F>, LoanedMut<'t, G>, LoanedMut<'t, H>, LoanedMut<'t, I>)) -> (loaned: Self)
        ensures
            loaned@.0 == value.0@,
            loaned@.1 == value.1@,
            loaned@.2 == value.2@,
            loaned@.3 == value.3@,
            loaned@.4 == value.4@,
            loaned@.5 == value.5@,
            loaned@.6 == value.6@,
            loaned@.7 == value.7@,
            loaned@.8 == value.8@,
    {
        LoanedMut::new((value.0.into_raw().into_inner(), value.1.into_raw().into_inner(), value.2.into_raw().into_inner(), value.3.into_raw().into_inner(), value.4.into_raw().into_inner(), value.5.into_raw().into_inner(), value.6.into_raw().into_inner(), value.7.into_raw().into_inner(), value.8.into_raw().into_inner()))
    }
}

impl<'t, A, B, C, D, E, F, G, H, I> FromSpecImpl<(LoanedMut<'t, A>, LoanedMut<'t, B>, LoanedMut<'t, C>, LoanedMut<'t, D>, LoanedMut<'t, E>, LoanedMut<'t, F>, LoanedMut<'t, G>, LoanedMut<'t, H>, LoanedMut<'t, I>)> for LoanedMut<'t, (A, B, C, D, E, F, G, H, I)> {
    open spec fn obeys_from_spec() -> bool {
        false
    }

    open spec fn from_spec(value: (LoanedMut<'t, A>, LoanedMut<'t, B>, LoanedMut<'t, C>, LoanedMut<'t, D>, LoanedMut<'t, E>, LoanedMut<'t, F>, LoanedMut<'t, G>, LoanedMut<'t, H>, LoanedMut<'t, I>)) -> Self {
        arbitrary()
    }
}

/// A tuple of ten mutable loans becomes one mutable loan of the tuple of
/// their payloads.
impl<'t, A, B, C, D, E, F, G, H, I, J> From<(LoanedMut<'t, A>, LoanedMut<'t, B>, LoanedMut<'t, C>, LoanedMut<'t, D>, LoanedMut<'t, E>, LoanedMut<'t, F>, LoanedMut<'t, G>, LoanedMut<'t, H>, LoanedMut<'t, I>, LoanedMut<'t, J>)> for LoanedMut<'t, (A, B, C, D, E, F, G, H, I, J)> {
    fn from(value: (LoanedMut<'t, A>, LoanedMut<'t, B>, LoanedMut<'t, C>, LoanedMut<'t, D>, LoanedMut<'t, E>, LoanedMut<'t, F>, LoanedMut<'t, G>, LoanedMut<'t, H>, LoanedMut<'t, I>, LoanedMut<'t, J>)) -> (loaned: Self)
        ensures
            loaned@.0 == value.0@,
            loaned@.1 == value.1@,
            loaned@.2 == value.2@,
            loaned@.3 == value.3@,
            loaned@.4 == value.4@,
            loaned@.5 == value.5@,
            loaned@.6 == value.6@,
            loaned@.7 == value.7@,
            loaned@.8 == value.8@,
            loaned@.9 == value.9@,
    {
        LoanedMut::new((value.0.into_raw().into_inner(), value.1.into_raw().into_inner(), value.2.into_raw().into_inner(), value.3.into_raw().into_inner(), value.4.into_raw().into_inner(), value.5.into_raw().into_inner(), value.6.into_raw().into_inner(), value.7.into_raw().into_inner(), value.8.into_raw().into_inner(), value.9.into_raw().into_inner()))
    }
}

impl<'t, A, B, C, D, E, F, G, H, I, J> FromSpecImpl<(LoanedMut<'t, A>, LoanedMut<'t, B>, LoanedMut<'t, C>, LoanedMut<'t, D>, LoanedMut<'t, E>, LoanedMut<'t, F>, LoanedMut<'t, G>, LoanedMut<'t, H>, LoanedMut<'t, I>, LoanedMut<'t, J>)> for LoanedMut<'t, (A, B, C, D, E, F, G, H, I, J)> {
    open spec fn obeys_from_spec() -> bool {
        false
    }

    open spec fn from_spec(value: (LoanedMut<'t, A>, LoanedMut<'t, B>, LoanedMut<'t, C>, LoanedMut<'t, D>, LoanedMut<'t, E>, LoanedMut<'t, F>, LoanedMut<'t, G>, LoanedMut<'t, H>, LoanedMut<'t, I>, LoanedMut<'t, J>)) -> Self {
        arbitrary()
    }
}

} // verus!
