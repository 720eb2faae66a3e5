use vstd::prelude::*;
use core::mem::ManuallyDrop;
use core::ops::{Deref, DerefMut};
use crate::loanable::Loanable;
use crate::loanee::{Loanee, LoaneeMut};

verus! {

/// Marks a payload as one that may be lost without cleanup.
///
/// A handle over `MayLeak<T>` never reports a leak, whatever `T` needs; the
/// price is that the payload really leaks unless it is placed or taken.
pub struct MayLeak<T>(pub ManuallyDrop<T>);

impl<T> MayLeak<T> {
    /// The payload wrapped.
    pub open spec fn view(&self) -> T {
        self.0@
    }

    /// Wraps `value`.
    pub fn new(value: T) -> (slot: Self)
        ensures
            slot@ == value,
    {
        MayLeak(ManuallyDrop::new(value))
    }

    /// Unwraps the payload, which is cleaned up normally from here on.
    pub fn into_inner(slot: Self) -> (value: T)
        ensures
            value == slot@,
    {
        ManuallyDrop::into_inner(slot.0)
    }

}

/// Shared access to the payload.
impl<T> Deref for MayLeak<T> {
    type Target = T;

    fn deref(&self) -> (value: &T)
        ensures
            *value == self@,
    {
        &self.0
    }
}

/// Exclusive access to the payload: the wrapper ends up holding whatever the
/// caller leaves behind the reference.
impl<T> DerefMut for MayLeak<T> {
    fn deref_mut(&mut self) -> (value: &mut T)
        ensures
            *value == old(self)@,
            final(self)@ == *final(value),
    {
        &mut self.0
    }
}

impl<T: Loanee> Loanee for MayLeak<T> {
    open spec fn needs_drop_spec() -> bool {
        false
    }

    fn needs_drop() -> (needed: bool) {
        false
    }
}

/// The wrapper lends out what the payload lends out.
impl<'t, T: Loanable<'t>> Loanable<'t> for MayLeak<T> {
    open spec fn pointee(&self) -> usize {
        self@.pointee()
    }

    fn target(&self) -> (addr: usize) {
        self.deref().target()
    }
}

impl<T: LoaneeMut> LoaneeMut for MayLeak<T> {
}

} // verus!
