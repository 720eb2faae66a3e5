use vstd::prelude::*;
use core::mem::MaybeUninit;
use vstd::std_specs::maybe_uninit::MaybeUninitAdditionalSpecFns;
use crate::heap::Boxed;
use crate::loanable::{Loanable, Ref, RefMut};
use crate::loaned::Loaned;
use crate::loaned_mut::LoanedMut;
use crate::loanee::{leak_reported, Loanee};
use crate::may_leak::MayLeak;
use crate::place::{Place, Placeable};

verus! {

/// Round trip. A payload that is loaned, placed into a raw slot and read
/// back from there is the payload that went in, and taking it from the
/// handle gives the same; read through it, the pointee holds what was last
/// written through the minted reference.
pub proof fn lemma_round_trip<'t, T: Loanable<'t>, V>(
    value: T,
    borrow: RefMut<'t>,
    loaned: LoanedMut<'t, T>,
    slot: MaybeUninit<T>,
    taken: T,
    cells: Map<usize, V>,
    written: V,
)
    requires
        borrow.addr() == value.pointee(),
        loaned@ == value,
        <MaybeUninit<T> as Place<'t, T>>::occupant(&slot) == Some(loaned@),
        taken == loaned.payload(),
    ensures
        slot.as_option() == Some(value),
        taken == value,
        cells.insert(borrow.addr(), written)[taken.pointee()] == written,
{
}

/// Reference validity across the move. Once the handle of a loan has been
/// placed, the destination's occupant has the pointee that the minted
/// reference names: what is written through the reference is what is read
/// through the destination, and the write changes nothing else.
pub proof fn lemma_reference_survives_placement<'t, T: Loanable<'t>, P: Place<'t, T>, V>(
    value: T,
    borrow: RefMut<'t>,
    loaned: LoanedMut<'t, T>,
    dest: P,
    cells: Map<usize, V>,
    written: V,
)
    requires
        borrow.addr() == value.pointee(),
        loaned@ == value,
        <P as Place<'t, T>>::occupant(&dest) == Some(loaned@),
        cells.dom().contains(borrow.addr()),
    ensures
        <P as Place<'t, T>>::occupant(&dest).unwrap().pointee() == borrow.addr(),
        cells.insert(borrow.addr(), written)[<P as Place<'t, T>>::occupant(
            &dest,
        ).unwrap().pointee()] == written,
        cells.insert(borrow.addr(), written).dom() == cells.dom(),
        forall|a: usize|
            a != borrow.addr() && cells.dom().contains(a) ==> cells.insert(
                borrow.addr(),
                written,
            )[a] == cells[a],
{
    assert(cells.insert(borrow.addr(), written).dom() =~= cells.dom());
}

/// Reference validity across the move, for a shared loan. Once the handle
/// has been placed, reading through the destination's occupant and reading
/// through the minted reference give the same pointee.
pub proof fn lemma_shared_reference_survives_placement<'t, T: Loanable<'t>, P: Place<'t, T>, V>(
    value: T,
    borrow: Ref<'t>,
    loaned: Loaned<'t, T>,
    dest: P,
    cells: Map<usize, V>,
)
    requires
        borrow.addr() == value.pointee(),
        loaned@ == value,
        <P as Place<'t, T>>::occupant(&dest) == Some(loaned@),
    ensures
        <P as Place<'t, T>>::occupant(&dest).unwrap().pointee() == borrow.addr(),
        cells[<P as Place<'t, T>>::occupant(&dest).unwrap().pointee()] == cells[borrow.addr()],
{
}

/// Merge independence. Two loans over different pointees, merged into one
/// handle over the pair: whatever is written through the two references,
/// in either order, the pair that is placed reads the first write through
/// its first part and the second through its second.
pub proof fn lemma_merge_independence<'t, A: Loanable<'t>, B: Loanable<'t>, V>(
    first: A,
    second: B,
    borrow1: RefMut<'t>,
    borrow2: RefMut<'t>,
    loaned1: LoanedMut<'t, A>,
    loaned2: LoanedMut<'t, B>,
    merged: LoanedMut<'t, (A, B)>,
    cells: Map<usize, V>,
    written1: V,
    written2: V,
)
    requires
        borrow1.addr() == first.pointee(),
        loaned1@ == first,
        borrow2.addr() == second.pointee(),
        loaned2@ == second,
        first.pointee() != second.pointee(),
        merged@ == (loaned1@, loaned2@),
    ensures
        cells.insert(borrow1.addr(), written1).insert(borrow2.addr(), written2)
            == cells.insert(borrow2.addr(), written2).insert(borrow1.addr(), written1),
        cells.insert(borrow1.addr(), written1).insert(
            borrow2.addr(),
            written2,
        )[merged@.0.pointee()] == written1,
        cells.insert(borrow1.addr(), written1).insert(
            borrow2.addr(),
            written2,
        )[merged@.1.pointee()] == written2,
{
    assert(cells.insert(borrow1.addr(), written1).insert(borrow2.addr(), written2)
        =~= cells.insert(borrow2.addr(), written2).insert(borrow1.addr(), written1));
}

/// Split, then independent use. Two references minted into different parts
/// of a pair before the pair is wrapped: the handle owns the pair as it
/// was, and through its parts both writes are read, in whichever order they
/// were made.
pub proof fn lemma_split_independence<'t, A: Loanable<'t>, B: Loanable<'t>, V>(
    pair: (A, B),
    borrow1: RefMut<'t>,
    borrow2: RefMut<'t>,
    loaned: LoanedMut<'t, (A, B)>,
    cells: Map<usize, V>,
    written1: V,
    written2: V,
)
    requires
        borrow1.addr() == pair.0.pointee(),
        borrow2.addr() == pair.1.pointee(),
        pair.0.pointee() != pair.1.pointee(),
        loaned@ == pair,
    ensures
        cells.insert(borrow1.addr(), written1).insert(borrow2.addr(), written2)
            == cells.insert(borrow2.addr(), written2).insert(borrow1.addr(), written1),
        cells.insert(borrow1.addr(), written1).insert(
            borrow2.addr(),
            written2,
        )[loaned@.0.pointee()] == written1,
        cells.insert(borrow1.addr(), written1).insert(
            borrow2.addr(),
            written2,
        )[loaned@.1.pointee()] == written2,
{
    assert(cells.insert(borrow1.addr(), written1).insert(borrow2.addr(), written2)
        =~= cells.insert(borrow2.addr(), written2).insert(borrow1.addr(), written1));
}

/// No double effect. Placing a handle over a container's slot destroys the
/// old occupant once: its cell is gone and nothing is left of it to destroy
/// again, the slot holds the delivered container and no mix of the two, and
/// every other cell, the delivered container's among them, is as it was.
pub proof fn lemma_no_double_effect<'t, L: Placeable<'t, Boxed>, V>(
    loaned: L,
    slot_before: Boxed,
    slot_after: Boxed,
    cells_before: Map<usize, V>,
    cells_after: Map<usize, V>,
)
    requires
        cells_before.dom().contains(slot_before.addr()),
        slot_after == loaned.payload(),
        cells_after == cells_before.remove(slot_before.addr()),
    ensures
        slot_after.addr() == loaned.payload().addr(),
        !cells_after.dom().contains(slot_before.addr()),
        cells_after.remove(slot_before.addr()) == cells_after,
        forall|a: usize|
            a != slot_before.addr() ==> (cells_after.dom().contains(a)
                <==> cells_before.dom().contains(a)),
        forall|a: usize|
            a != slot_before.addr() && cells_before.dom().contains(a) ==> cells_after[a]
                == cells_before[a],
{
    assert(cells_after.remove(slot_before.addr()) =~= cells_after);
}

/// The leak report. A payload that needs cleanup is reported unless the
/// thread is unwinding; the same payload inside [`MayLeak`] never is.
pub proof fn lemma_leak_report<T: Loanee>(unwinding: bool)
    ensures
        T::needs_drop_spec() ==> leak_reported::<T>(unwinding) == !unwinding,
        !T::needs_drop_spec() ==> !leak_reported::<T>(unwinding),
        !leak_reported::<MayLeak<T>>(unwinding),
{
}

} // verus!
