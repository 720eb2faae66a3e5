use vstd::prelude::*;
use core::cmp::Ordering;
use core::ops::Deref;
use vstd::std_specs::cmp::{PartialEqSpec, PartialEqSpecImpl, PartialOrdSpec, PartialOrdSpecImpl};
use crate::loaned::Loaned;

verus! {

/// Two shared loans are equal when their payloads are.
impl<'t, 'u, T: PartialEq<U>, U> PartialEq<Loaned<'u, U>> for Loaned<'t, T> {
    fn eq(&self, other: &Loaned<'u, U>) -> (equal: bool) {
        self.deref().eq(other.deref())
    }
}

impl<'t, 'u, T: PartialEq<U>, U> PartialEqSpecImpl<Loaned<'u, U>> for Loaned<'t, T> {
    open spec fn obeys_eq_spec() -> bool {
        T::obeys_eq_spec()
    }

    open spec fn eq_spec(&self, other: &Loaned<'u, U>) -> bool {
        self@.eq_spec(&other@)
    }
}

impl<'t, T: Eq> Eq for Loaned<'t, T> {
}

/// Shared loans are ordered as their payloads are.
impl<'t, 'u, T: PartialOrd<U>, U> PartialOrd<Loaned<'u, U>> for Loaned<'t, T> {
    fn partial_cmp(&self, other: &Loaned<'u, U>) -> (order: Option<Ordering>) {
        self.deref().partial_cmp(other.deref())
    }
}

impl<'t, 'u, T: PartialOrd<U>, U> PartialOrdSpecImpl<Loaned<'u, U>> for Loaned<'t, T> {
    open spec fn obeys_partial_cmp_spec() -> bool {
        T::obeys_partial_cmp_spec()
    }

    open spec fn partial_cmp_spec(&self, other: &Loaned<'u, U>) -> Option<Ordering> {
        self@.partial_cmp_spec(&other@)
    }
}

} // verus!
