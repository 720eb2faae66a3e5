use vstd::prelude::*;
use core::mem::ManuallyDrop;
use core::mem::MaybeUninit;
use core::ops::DerefMut;
use vstd::std_specs::convert::FromSpecImpl;
use vstd::std_specs::manually_drop::ManuallyDropAdditionalFns;
use vstd::std_specs::maybe_uninit::MaybeUninitAdditionalSpecFns;

verus! {

/// `ManuallyDrop::deref_mut` of std, believed and not proved: the reference
/// returned starts at the wrapped value, and the wrapper ends up holding
/// whatever is left behind that reference.
pub assume_specification<T: ?Sized>[ <ManuallyDrop<T> as DerefMut>::deref_mut ](
    m: &mut ManuallyDrop<T>,
) -> (res: &mut T)
    ensures
        &*res == old(m).view_ref(),
        &*final(res) == final(m).view_ref(),
;

/// Storage that holds a value and never runs its destructor by itself.
///
/// Leaving scope forgets the value: it is destroyed only when the owner of
/// the cell takes it out with [`RawLoaned::into_inner`] and lets it go.
#[derive(Debug, Hash)]
pub struct RawLoaned<T> {
    value: ManuallyDrop<T>,
}

impl<T> RawLoaned<T> {
    /// The value held.
    pub closed spec fn view(&self) -> T {
        self.value@
    }

    /// Stores `value`.
    pub fn new(value: T) -> (raw: Self)
        ensures
            raw@ == value,
    {
        RawLoaned { value: ManuallyDrop::new(value) }
    }

    /// Shared access to the value held.
    pub fn as_ref(&self) -> (r: &T)
        ensures
            *r == self@,
    {
        &self.value
    }

    /// Exclusive access to the value held: the cell ends up holding whatever
    /// the caller leaves behind the reference.
    pub fn as_mut(&mut self) -> (r: &mut T)
        ensures
            *r == old(self)@,
            final(self)@ == *final(r),
    {
        &mut self.value
    }

    /// Takes the value out, handing its destruction back to the caller.
    pub fn into_inner(self) -> (value: T)
        ensures
            value == self@,
    {
        ManuallyDrop::into_inner(self.value)
    }
}

/// The value of a cell as an initialised raw slot, which does not run its
/// destructor by itself either.
impl<T> From<RawLoaned<T>> for MaybeUninit<T> {
    fn from(value: RawLoaned<T>) -> (slot: Self)
        ensures
            slot.as_option() == Some(value@),
    {
        MaybeUninit::new(value.into_inner())
    }
}

impl<T> FromSpecImpl<RawLoaned<T>> for MaybeUninit<T> {
    open spec fn obeys_from_spec() -> bool {
        false
    }

    open spec fn from_spec(value: RawLoaned<T>) -> Self {
        arbitrary()
    }
}

} // verus!
