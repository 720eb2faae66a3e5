use vstd::prelude::*;
use crate::place::Placeable;

verus! {

/// Takes the payload out of a handle of either kind.
///
/// `region` is borrowed for the whole of `'t`: pass a borrow of something
/// that is gone right after the call, and no reference minted for `'t` can
/// be used from then on.
pub fn take<'t, T, L: Placeable<'t, T>>(loaned: L, region: &'t mut ()) -> (value: T)
    ensures
        value == loaned.payload(),
{
    loaned.take(region)
}

/// Destroys the payload of a handle of either kind, with its normal
/// cleanup; `region` is as in [`take`].
pub fn discard<'t, T, L: Placeable<'t, T>>(loaned: L, region: &'t mut ()) {
    let _ = loaned.take(region);
}

} // verus!
