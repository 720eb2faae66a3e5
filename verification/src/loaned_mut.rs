use vstd::prelude::*;
use core::marker::PhantomData;
use crate::loanable::{Loanable, Ref, RefMut};
use crate::loaned::Loaned;
use crate::loanee::{leak_reported, Loanee, LoaneeMut};
use crate::place::Place;
use crate::raw_loaned::RawLoaned;
use vstd::std_specs::convert::FromSpecImpl;

verus! {

/// Ownership of a `T` whose pointee is mutably lent out for `'t`: something
/// else may hold the one writable reference to it.
///
/// For the length of `'t` the payload cannot be reached through the handle.
/// The handle can be moved, merged and placed; placing borrows the
/// destination for `'t`, so the payload is reached again only when the
/// region is over.
#[must_use]
pub struct LoanedMut<'t, T> {
    inner: RawLoaned<T>,
    region: PhantomData<&'t mut &'t ()>,
}

impl<'t, T> LoanedMut<'t, T> {
    /// The payload owned.
    pub closed spec fn view(&self) -> T {
        self.inner@
    }

    /// Wraps `value` and mints the writable reference to its pointee.
    pub fn loan(value: T) -> (loan: (RefMut<'t>, Self)) where T: Loanable<'t> + LoaneeMut
        ensures
            loan.0.addr() == value.pointee(),
            loan.1@ == value,
    {
        let inner = RawLoaned::new(value);
        let borrow = RefMut::mint(inner.as_ref().target());
        (borrow, LoanedMut::from_raw(inner))
    }

    /// Wraps `value` without lending anything out.
    pub fn new(value: T) -> (loaned: Self)
        ensures
            loaned@ == value,
    {
        LoanedMut::from_raw(RawLoaned::new(value))
    }

    /// Delivers the payload into `place`, which stays borrowed for `'t`.
    pub fn place<P: Place<'t, T>>(self, place: &'t mut P)
        ensures
            (*final(place)).occupant() == Some(self@),
    {
        P::place(self, place)
    }

    /// Whether destroying this handle unplaced has to be reported as a
    /// leak: the payload needs cleanup, and no other failure is already
    /// unwinding the thread.
    pub fn leaks_on_drop(&self, unwinding: bool) -> (report: bool) where T: Loanee
        ensures
            report == leak_reported::<T>(unwinding),
    {
        T::needs_drop() && !unwinding
    }

    pub(crate) fn into_raw(self) -> (raw: RawLoaned<T>)
        ensures
            raw@ == self@,
    {
        self.inner
    }

    pub(crate) fn from_raw(inner: RawLoaned<T>) -> (loaned: Self)
        ensures
            loaned@ == inner@,
    {
        LoanedMut { inner, region: PhantomData }
    }

    /// Builds one handle over an aggregate out of several handles: `f`
    /// places each of them into a part of `value` through the [`MergeMut`]
    /// it is given, and the handle owns what `f` leaves there.
    pub fn merge<F>(value: T, f: F) -> (loaned: Self) where
        F: for <'i>FnOnce(&'i mut T, &'i MergeMut<'t, 'i>),
        requires
            forall|agg: &mut T, m: &MergeMut<'t, '_>| *agg == value ==> call_requires(f, (agg, m)),
        ensures
            exists|agg: &mut T, m: &MergeMut<'t, '_>|
                *agg == value && *final(agg) == loaned@ && call_ensures(f, (agg, m), ()),
    {
        let mut inner = RawLoaned::new(value);
        let merger = MergeMut::start();
        f(inner.as_mut(), &merger);
        LoanedMut::from_raw(inner)
    }

    /// Wraps `value` after `f` has minted references into parts of it
    /// through the [`LoanWithMut`] it is given; returns what `f` returned
    /// beside the handle over what `f` left of the aggregate.
    pub fn loan_with<L, F>(value: T, f: F) -> ((loans, loaned): (L, Self)) where
        F: for <'i>FnOnce(&'i mut T, &'i LoanWithMut<'t, 'i>) -> L,
        requires
            forall|agg: &mut T, l: &LoanWithMut<'t, '_>|
                *agg == value ==> call_requires(f, (agg, l)),
        ensures
            exists|agg: &mut T, l: &LoanWithMut<'t, '_>|
                *agg == value && *final(agg) == loaned@ && call_ensures(f, (agg, l), loans),
    {
        let mut inner = RawLoaned::new(value);
        let lender = LoanWithMut::start();
        let loans = f(inner.as_mut(), &lender);
        let loaned = LoanedMut::from_raw(inner);
        let loan = (loans, loaned);
        assert(loan.0 == loans && loan.1@ == loaned@);
        loan
    }
}

/// A shared loan becomes a mutable one over the same payload.
impl<'t, T> From<Loaned<'t, T>> for LoanedMut<'t, T> {
    fn from(value: Loaned<'t, T>) -> (loaned: Self)
        ensures
            loaned@ == value@,
    {
        LoanedMut::from_raw(value.into_raw())
    }
}

impl<'t, T> FromSpecImpl<Loaned<'t, T>> for LoanedMut<'t, T> {
    open spec fn obeys_from_spec() -> bool {
        false
    }

    open spec fn from_spec(value: Loaned<'t, T>) -> Self {
        arbitrary()
    }
}

/// A handle over the payload type's default value.
impl<'t, T: Default> Default for LoanedMut<'t, T> {
    fn default() -> (loaned: Self)
        ensures
            call_ensures(T::default, (), loaned@),
    {
        LoanedMut::new(T::default())
    }
}

/// Any value becomes a handle over itself, with nothing lent out.
impl<'t, T> From<T> for LoanedMut<'t, T> {
    fn from(value: T) -> (loaned: Self)
        ensures
            loaned@ == value,
    {
        LoanedMut::new(value)
    }
}

impl<'t, T> FromSpecImpl<T> for LoanedMut<'t, T> {
    open spec fn obeys_from_spec() -> bool {
        false
    }

    open spec fn from_spec(value: T) -> Self {
        arbitrary()
    }
}

/// What the closure of [`LoanedMut::merge`] places handles with.
pub struct MergeMut<'t, 'i>(PhantomData<(&'t mut &'t (), &'i mut &'i ())>);

impl<'t, 'i> MergeMut<'t, 'i> {
    pub(crate) fn start() -> Self {
        MergeMut(PhantomData)
    }

    /// Delivers the payload of `loaned` into `place`, a part of the
    /// aggregate under construction.
    pub fn place<T, P: Place<'i, T>>(&'i self, loaned: LoanedMut<'t, T>, place: &'i mut P)
        ensures
            (*final(place)).occupant() == Some(loaned@),
    {
        P::place(LoanedMut::from_raw(loaned.into_raw()), place)
    }
}

/// What the closure of [`LoanedMut::loan_with`] mints references with.
pub struct LoanWithMut<'t, 'i>(PhantomData<(&'t mut &'t (), &'i mut &'i ())>);

impl<'t, 'i> LoanWithMut<'t, 'i> {
    pub(crate) fn start() -> Self {
        LoanWithMut(PhantomData)
    }

    /// Mints the writable reference to the pointee of `value`, a part of
    /// the aggregate; `value` itself is left as it is.
    pub fn loan_mut<T: Loanable<'i> + LoaneeMut>(&'i self, value: &'i mut T) -> (borrow: RefMut<'t>)
        ensures
            borrow.addr() == old(value).pointee(),
            *final(value) == *old(value),
    {
        RefMut::mint(value.target())
    }

    /// Mints a shared reference to the pointee of `value`, a part of the
    /// aggregate.
    pub fn loan<T: Loanable<'i>>(&'i self, value: &'i T) -> (borrow: Ref<'t>)
        ensures
            borrow.addr() == value.pointee(),
    {
        Ref::mint(value.target())
    }
}

} // verus!
