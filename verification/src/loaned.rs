use vstd::prelude::*;
use core::marker::PhantomData;
use core::ops::Deref;
use crate::loanable::{Loanable, Ref};
use crate::loaned_mut::LoanedMut;
use crate::loanee::{leak_reported, Loanee};
use crate::place::Place;
use crate::raw_loaned::RawLoaned;
use vstd::std_specs::convert::FromSpecImpl;

verus! {

/// Ownership of a `T` whose pointee is immutably lent out for `'t`:
/// something else may hold shared references to it.
///
/// For the length of `'t` the payload can be read through the handle, not
/// written. The handle can be moved, merged and placed; placing borrows the
/// destination for `'t`.
#[must_use]
#[derive(Debug, Hash)]
pub struct Loaned<'t, T> {
    inner: RawLoaned<T>,
    region: PhantomData<&'t mut &'t ()>,
}

impl<'t, T> Loaned<'t, T> {
    /// The payload owned.
    pub closed spec fn view(&self) -> T {
        self.inner@
    }

    /// Wraps `value` and mints a shared reference to its pointee.
    pub fn loan(value: T) -> (loan: (Ref<'t>, Self)) where T: Loanable<'t>
        ensures
            loan.0.addr() == value.pointee(),
            loan.1@ == value,
    {
        let loaned = Loaned::from_raw(RawLoaned::new(value));
        (loaned.borrow(), loaned)
    }

    /// Wraps `value` without lending anything out.
    pub fn new(value: T) -> (loaned: Self)
        ensures
            loaned@ == value,
    {
        Loaned::from_raw(RawLoaned::new(value))
    }

    /// Delivers the payload into `place`, which stays borrowed for `'t`.
    pub fn place<P: Place<'t, T>>(self, place: &'t mut P)
        ensures
            (*final(place)).occupant() == Some(self@),
    {
        P::place(LoanedMut::from(self), place)
    }

    /// Mints one more shared reference to the pointee, good for `'t`.
    pub fn borrow(&self) -> (borrow: Ref<'t>) where T: Loanable<'t>
        ensures
            borrow.addr() == self@.pointee(),
    {
        Ref::mint(self.inner.as_ref().target())
    }

    /// Whether destroying this handle unplaced has to be reported as a
    /// leak: the payload needs cleanup, and no other failure is already
    /// unwinding the thread.
    pub fn leaks_on_drop(&self, unwinding: bool) -> (report: bool) where T: Loanee
        ensures
            report == leak_reported::<T>(unwinding),
    {
        T::needs_drop() && !unwinding
    }

    pub(crate) fn into_raw(self) -> (raw: RawLoaned<T>)
        ensures
            raw@ == self@,
    {
        self.inner
    }

    pub(crate) fn from_raw(inner: RawLoaned<T>) -> (loaned: Self)
        ensures
            loaned@ == inner@,
    {
        Loaned { inner, region: PhantomData }
    }

    /// Builds one handle over an aggregate out of several handles: `f`
    /// places each of them into a part of `value` through the [`Merge`] it
    /// is given, and the handle owns what `f` leaves there.
    pub fn merge<F>(value: T, f: F) -> (loaned: Self) where
        F: for <'i>FnOnce(&'i mut T, &'i Merge<'t, 'i>),
        requires
            forall|agg: &mut T, m: &Merge<'t, '_>| *agg == value ==> call_requires(f, (agg, m)),
        ensures
            exists|agg: &mut T, m: &Merge<'t, '_>|
                *agg == value && *final(agg) == loaned@ && call_ensures(f, (agg, m), ()),
    {
        let mut inner = RawLoaned::new(value);
        let merger = Merge::start();
        f(inner.as_mut(), &merger);
        Loaned::from_raw(inner)
    }

    /// Wraps `value` after `f` has minted references into parts of it
    /// through the [`LoanWith`] it is given; returns what `f` returned
    /// beside the handle over what `f` left of the aggregate.
    pub fn loan_with<L, F>(value: T, f: F) -> ((loans, loaned): (L, Self)) where
        F: for <'i>FnOnce(&'i mut T, &'i LoanWith<'t, 'i>) -> L,
        requires
            forall|agg: &mut T, l: &LoanWith<'t, '_>|
                *agg == value ==> call_requires(f, (agg, l)),
        ensures
            exists|agg: &mut T, l: &LoanWith<'t, '_>|
                *agg == value && *final(agg) == loaned@ && call_ensures(f, (agg, l), loans),
    {
        let mut inner = RawLoaned::new(value);
        let lender = LoanWith::start();
        let loans = f(inner.as_mut(), &lender);
        let loaned = Loaned::from_raw(inner);
        let loan = (loans, loaned);
        assert(loan.0 == loans && loan.1@ == loaned@);
        loan
    }
}

/// Shared access to the payload, which stays readable while it is lent out.
impl<'t, T> Deref for Loaned<'t, T> {
    type Target = T;

    fn deref(&self) -> (value: &T)
        ensures
            *value == self@,
    {
        self.inner.as_ref()
    }
}

/// A copy of the payload in a handle of its own, with nothing lent out.
impl<'t, T: Clone> Clone for Loaned<'t, T> {
    fn clone(&self) -> (copy: Self)
        ensures
            cloned::<T>(self@, copy@),
    {
        Loaned::new(self.deref().clone())
    }
}

/// A handle over the payload type's default value.
impl<'t, T: Default> Default for Loaned<'t, T> {
    fn default() -> (loaned: Self)
        ensures
            call_ensures(T::default, (), loaned@),
    {
        Loaned::new(T::default())
    }
}

/// Any value becomes a handle over itself, with nothing lent out.
impl<'t, T> From<T> for Loaned<'t, T> {
    fn from(value: T) -> (loaned: Self)
        ensures
            loaned@ == value,
    {
        Loaned::new(value)
    }
}

impl<'t, T> FromSpecImpl<T> for Loaned<'t, T> {
    open spec fn obeys_from_spec() -> bool {
        false
    }

    open spec fn from_spec(value: T) -> Self {
        arbitrary()
    }
}

/// What the closure of [`Loaned::merge`] places handles with.
pub struct Merge<'t, 'i>(PhantomData<(&'t mut &'t (), &'i mut &'i ())>);

impl<'t, 'i> Merge<'t, 'i> {
    pub(crate) fn start() -> Self {
        Merge(PhantomData)
    }

    /// Delivers the payload of `loaned` into `place`, a part of the
    /// aggregate under construction.
    pub fn place<T, P: Place<'i, T>>(&'i self, loaned: Loaned<'t, T>, place: &'i mut P)
        ensures
            (*final(place)).occupant() == Some(loaned@),
    {
        P::place(LoanedMut::from_raw(loaned.into_raw()), place)
    }
}

/// What the closure of [`Loaned::loan_with`] mints references with.
pub struct LoanWith<'t, 'i>(PhantomData<(&'t mut &'t (), &'i mut &'i ())>);

impl<'t, 'i> LoanWith<'t, 'i> {
    pub(crate) fn start() -> Self {
        LoanWith(PhantomData)
    }

    /// Mints a shared reference to the pointee of `value`, a part of the
    /// aggregate.
    pub fn loan<T: Loanable<'i>>(&'i self, value: &'i T) -> (borrow: Ref<'t>)
        ensures
            borrow.addr() == value.pointee(),
    {
        Ref::mint(value.target())
    }
}

} // verus!
