use vstd::prelude::*;
use core::mem::MaybeUninit;
use vstd::std_specs::maybe_uninit::MaybeUninitAdditionalSpecFns;
use crate::loaned::Loaned;
use crate::loaned_mut::LoanedMut;

verus! {

/// Destinations that a loan handle can be placed into.
pub trait Place<'t, T>: Sized {
    /// The value of the payload's type that the destination holds, if any.
    spec fn occupant(&self) -> Option<T>;

    /// Delivers the payload into `place`. What `place` held before is
    /// destroyed there; nothing of it is left in the result.
    fn place(loaned: LoanedMut<'t, T>, place: &'t mut Self)
        ensures
            (*final(place)).occupant() == Some(loaned@),
    ;
}

/// A raw slot: it has no occupant to destroy, the payload is written over
/// whatever it held.
impl<'t, T> Place<'t, T> for MaybeUninit<T> {
    open spec fn occupant(&self) -> Option<T> {
        self.as_option()
    }

    fn place(loaned: LoanedMut<'t, T>, place: &'t mut Self) {
        *place = MaybeUninit::from(loaned.into_raw());
    }
}

/// A slot of the payload's own type: the old occupant is destroyed and the
/// payload installed in its stead.
impl<'t, T> Place<'t, T> for T {
    open spec fn occupant(&self) -> Option<T> {
        Some(*self)
    }

    fn place(loaned: LoanedMut<'t, T>, place: &'t mut Self)
        ensures
            *final(place) == loaned@,
    {
        *place = loaned.into_raw().into_inner();
    }
}

/// An optional slot: the old occupant, if there is one, is destroyed and the
/// payload installed as present.
impl<'t, T> Place<'t, T> for Option<T> {
    open spec fn occupant(&self) -> Option<T> {
        *self
    }

    fn place(loaned: LoanedMut<'t, T>, place: &'t mut Self)
        ensures
            *final(place) == Some(loaned@),
    {
        *place = Some(loaned.into_raw().into_inner());
    }
}

/// Handles that can deliver their payload, whichever kind of loan they are.
pub trait Placeable<'t, T>: Sized {
    /// The payload owned.
    spec fn payload(&self) -> T;

    /// Delivers the payload into `place`, which stays borrowed for `'t`.
    fn place<P: Place<'t, T>>(self, place: &'t mut P)
        ensures
            (*final(place)).occupant() == Some(self.payload()),
    ;

    /// Hands the payload out. The borrow of `region` for `'t` shows that
    /// the region is over once `region` is gone.
    fn take(self, region: &'t mut ()) -> (value: T)
        ensures
            value == self.payload(),
    ;
}

impl<'t, T> Placeable<'t, T> for Loaned<'t, T> {
    open spec fn payload(&self) -> T {
        self@
    }

    fn place<P: Place<'t, T>>(self, place: &'t mut P) {
        P::place(LoanedMut::from(self), place)
    }

    fn take(self, region: &'t mut ()) -> (value: T) {
        self.into_raw().into_inner()
    }
}

impl<'t, T> Placeable<'t, T> for LoanedMut<'t, T> {
    open spec fn payload(&self) -> T {
        self@
    }

    fn place<P: Place<'t, T>>(self, place: &'t mut P) {
        P::place(self, place)
    }

    fn take(self, region: &'t mut ()) -> (value: T) {
        self.into_raw().into_inner()
    }
}

} // verus!
