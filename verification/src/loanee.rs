use vstd::prelude::*;
use std::rc::Rc;
use std::sync::Arc;
use crate::heap::Boxed;
use crate::loanable::{Ref, RefMut};

verus! {

/// Payloads of a loan handle, each saying whether losing it loses a cleanup.
pub trait Loanee {
    /// Whether destroying a value of this type has an effect that a leak
    /// would skip.
    spec fn needs_drop_spec() -> bool;

    /// Computes [`Loanee::needs_drop_spec`].
    fn needs_drop() -> (needed: bool)
        ensures
            needed == Self::needs_drop_spec(),
    ;
}

/// Whether the destruction of an unplaced handle over a `T` is reported:
/// the payload needs cleanup and the thread is not unwinding already.
pub open spec fn leak_reported<T: Loanee>(unwinding: bool) -> bool {
    T::needs_drop_spec() && !unwinding
}

/// An owner of a heap cell: destroying it frees the cell.
impl Loanee for Boxed {
    open spec fn needs_drop_spec() -> bool {
        true
    }

    fn needs_drop() -> (needed: bool) {
        true
    }
}

/// A box frees its allocation.
impl<T> Loanee for Box<T> {
    open spec fn needs_drop_spec() -> bool {
        true
    }

    fn needs_drop() -> (needed: bool) {
        true
    }
}

/// A counted pointer gives up its share.
impl<T> Loanee for Rc<T> {
    open spec fn needs_drop_spec() -> bool {
        true
    }

    fn needs_drop() -> (needed: bool) {
        true
    }
}

/// A counted pointer gives up its share.
impl<T> Loanee for Arc<T> {
    open spec fn needs_drop_spec() -> bool {
        true
    }

    fn needs_drop() -> (needed: bool) {
        true
    }
}

/// A vector frees its buffer.
impl<T> Loanee for Vec<T> {
    open spec fn needs_drop_spec() -> bool {
        true
    }

    fn needs_drop() -> (needed: bool) {
        true
    }
}

/// A reference owns nothing.
impl<'a> Loanee for Ref<'a> {
    open spec fn needs_drop_spec() -> bool {
        false
    }

    fn needs_drop() -> (needed: bool) {
        false
    }
}

/// A reference owns nothing.
impl<'a> Loanee for RefMut<'a> {
    open spec fn needs_drop_spec() -> bool {
        false
    }

    fn needs_drop() -> (needed: bool) {
        false
    }
}

/// A reference owns nothing.
impl<'a, T> Loanee for &'a T {
    open spec fn needs_drop_spec() -> bool {
        false
    }

    fn needs_drop() -> (needed: bool) {
        false
    }
}

/// A reference owns nothing.
impl<'a, T> Loanee for &'a mut T {
    open spec fn needs_drop_spec() -> bool {
        false
    }

    fn needs_drop() -> (needed: bool) {
        false
    }
}

/// An optional payload needs what the payload needs.
impl<T: Loanee> Loanee for Option<T> {
    open spec fn needs_drop_spec() -> bool {
        T::needs_drop_spec()
    }

    fn needs_drop() -> (needed: bool) {
        T::needs_drop()
    }
}

/// A tuple needs cleanup as soon as one of its parts does.
impl<A: Loanee> Loanee for (A,) {
    open spec fn needs_drop_spec() -> bool {
        A::needs_drop_spec()
    }

    fn needs_drop() -> (needed: bool) {
        A::needs_drop()
    }
}

/// A tuple needs cleanup as soon as one of its parts does.
impl<A: Loanee, B: Loanee> Loanee for (A, B) {
    open spec fn needs_drop_spec() -> bool {
        A::needs_drop_spec() || B::needs_drop_spec()
    }

    fn needs_drop() -> (needed: bool) {
        A::needs_drop() || B::needs_drop()
    }
}

/// A tuple needs cleanup as soon as one of its parts does.
impl<A: Loanee, B: Loanee, C: Loanee> Loanee for (A, B, C) {
    open spec fn needs_drop_spec() -> bool {
        A::needs_drop_spec() || B::needs_drop_spec() || C::needs_drop_spec()
    }

    fn needs_drop() -> (needed: bool) {
        A::needs_drop() || B::needs_drop() || C::needs_drop()
    }
}

/// A tuple needs cleanup as soon as one of its parts does.
impl<A: Loanee, B: Loanee, C: Loanee, D: Loanee> Loanee for (A, B, C, D) {
    open spec fn needs_drop_spec() -> bool {
        A::needs_drop_spec() || B::needs_drop_spec() || C::needs_drop_spec() || D::needs_drop_spec()
    }

    fn needs_drop() -> (needed: bool) {
        A::needs_drop() || B::needs_drop() || C::needs_drop() || D::needs_drop()
    }
}

/// A tuple needs cleanup as soon as one of its parts does.
impl<A: Loanee, B: Loanee, C: Loanee, D: Loanee, E: Loanee> Loanee for (A, B, C, D, E) {
    open spec fn needs_drop_spec() -> bool {
        A::needs_drop_spec() || B::needs_drop_spec() || C::needs_drop_spec() || D::needs_drop_spec() || E::needs_drop_spec()
    }

    fn needs_drop() -> (needed: bool) {
        A::needs_drop() || B::needs_drop() || C::needs_drop() || D::needs_drop() || E::needs_drop()
    }
}

/// A tuple needs cleanup as soon as one of its parts does.
impl<A: Loanee, B: Loanee, C: Loanee, D: Loanee, E: Loanee, F: Loanee> Loanee for (A, B, C, D, E, F) {
    open spec fn needs_drop_spec() -> bool {
        A::needs_drop_spec() || B::needs_drop_spec() || C::needs_drop_spec() || D::needs_drop_spec() || E::needs_drop_spec() || F::needs_drop_spec()
    }

    fn needs_drop() -> (needed: bool) {
        A::needs_drop() || B::needs_drop() || C::needs_drop() || D::needs_drop() || E::needs_drop() || F::needs_drop()
    }
}

/// A tuple needs cleanup as soon as one of its parts does.
impl<A: Loanee, B: Loanee, C: Loanee, D: Loanee, E: Loanee, F: Loanee, G: Loanee> Loanee for (A, B, C, D, E, F, G) {
    open spec fn needs_drop_spec() -> bool {
        A::needs_drop_spec() || B::needs_drop_spec() || C::needs_drop_spec() || D::needs_drop_spec() || E::needs_drop_spec() || F::needs_drop_spec() || G::needs_drop_spec()
    }

    fn needs_drop() -> (needed: bool) {
        A::needs_drop() || B::needs_drop() || C::needs_drop() || D::needs_drop() || E::needs_drop() || F::needs_drop() || G::needs_drop()
    }
}

/// A tuple needs cleanup as soon as one of its parts does.
impl<A: Loanee, B: Loanee, C: Loanee, D: Loanee, E: Loanee, F: Loanee, G: Loanee, H: Loanee> Loanee for (A, B, C, D, E, F, G, H) {
    open spec fn needs_drop_spec() -> bool {
        A::needs_drop_spec() || B::needs_drop_spec() || C::needs_drop_spec() || D::needs_drop_spec() || E::needs_drop_spec() || F::needs_drop_spec() || G::needs_drop_spec() || H::needs_drop_spec()
    }

    fn needs_drop() -> (needed: bool) {
        A::needs_drop() || B::needs_drop() || C::needs_drop() || D::needs_drop() || E::needs_drop() || F::needs_drop() || G::needs_drop() || H::needs_drop()
    }
}

/// A tuple needs cleanup as soon as one of its parts does.
impl<A: Loanee, B: Loanee, C: Loanee, D: Loanee, E: Loanee, F: Loanee, G: Loanee, H: Loanee, I: Loanee> Loanee for (A, B, C, D, E, F, G, H, I) {
    open spec fn needs_drop_spec() -> bool {
        A::needs_drop_spec() || B::needs_drop_spec() || C::needs_drop_spec() || D::needs_drop_spec() || E::needs_drop_spec() || F::needs_drop_spec() || G::needs_drop_spec() || H::needs_drop_spec() || I::needs_drop_spec()
    }

    fn needs_drop() -> (needed: bool) {
        A::needs_drop() || B::needs_drop() || C::needs_drop() || D::needs_drop() || E::needs_drop() || F::needs_drop() || G::needs_drop() || H::needs_drop() || I::needs_drop()
    }
}

/// A tuple needs cleanup as soon as one of its parts does.
impl<A: Loanee, B: Loanee, C: Loanee, D: Loanee, E: Loanee, F: Loanee, G: Loanee, H: Loanee, I: Loanee, J: Loanee> Loanee for (A, B, C, D, E, F, G, H, I, J) {
    open spec fn needs_drop_spec() -> bool {
        A::needs_drop_spec() || B::needs_drop_spec() || C::needs_drop_spec() || D::needs_drop_spec() || E::needs_drop_spec() || F::needs_drop_spec() || G::needs_drop_spec() || H::needs_drop_spec() || I::needs_drop_spec() || J::needs_drop_spec()
    }

    fn needs_drop() -> (needed: bool) {
        A::needs_drop() || B::needs_drop() || C::needs_drop() || D::needs_drop() || E::needs_drop() || F::needs_drop() || G::needs_drop() || H::needs_drop() || I::needs_drop() || J::needs_drop()
    }
}

/// Payloads whose pointee can also be written through.
pub trait LoaneeMut: Loanee {
}

impl LoaneeMut for Boxed {
}

impl<T> LoaneeMut for Box<T> {
}

impl<T> LoaneeMut for Vec<T> {
}

impl<'a> LoaneeMut for RefMut<'a> {
}

impl<'a, T> LoaneeMut for &'a mut T {
}

} // verus!
