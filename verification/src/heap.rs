use vstd::prelude::*;
use crate::loanable::{Ref, RefMut};
use crate::place::Placeable;

verus! {

/// An owning container whose pointee lives in a [`Heap`] cell.
///
/// The container is no more than the cell's address, so moving it never
/// moves the pointee. It cannot be copied: one cell has one owner.
#[derive(Debug, PartialEq, Eq, Structural)]
pub struct Boxed {
    addr: usize,
}

impl Boxed {
    /// The address of the pointee.
    pub closed spec fn addr(&self) -> usize {
        self.addr
    }

    /// Computes [`Boxed::addr`].
    pub fn address(&self) -> (addr: usize)
        ensures
            addr == self.addr(),
    {
        self.addr
    }
}

/// Indirect storage: pointees, each in a cell with an address that stays the
/// same for as long as the cell lives and is never given out again.
pub struct Heap<V> {
    cells: Vec<Option<V>>,
}

impl<V> Heap<V> {
    /// The live cells, by address.
    pub closed spec fn view(&self) -> Map<usize, V> {
        Map::new(
            |a: usize| a < self.cells@.len() && self.cells@[a as int].is_some(),
            |a: usize| self.cells@[a as int].unwrap(),
        )
    }

    /// How many addresses have been given out so far.
    pub closed spec fn allocated(&self) -> nat {
        self.cells@.len()
    }

    /// Whether `addr` names a live cell.
    pub open spec fn live(&self, addr: usize) -> bool {
        self@.dom().contains(addr)
    }

    /// A heap without cells.
    pub fn new() -> (heap: Self)
        ensures
            heap@ == Map::<usize, V>::empty(),
            heap.allocated() == 0,
    {
        let heap = Heap { cells: Vec::new() };
        assert(heap@ =~= Map::<usize, V>::empty());
        heap
    }

    /// Computes [`Heap::live`].
    pub fn is_live(&self, addr: usize) -> (live: bool)
        ensures
            live == self.live(addr),
    {
        addr < self.cells.len() && self.cells[addr].is_some()
    }

    /// Puts `value` into a new cell and returns its owner.
    pub fn allocate(&mut self, value: V) -> (owner: Boxed)
        ensures
            owner.addr() == old(self).allocated(),
            !old(self).live(owner.addr()),
            final(self)@ == old(self)@.insert(owner.addr(), value),
            final(self).allocated() == old(self).allocated() + 1,
    {
        let addr: usize = self.cells.len();
        self.cells.push(Some(value));
        assert(self@ =~= old(self)@.insert(addr, value));
        Boxed { addr }
    }

    /// Reads the pointee through its owner.
    pub fn get(&self, owner: &Boxed) -> (value: &V)
        requires
            self.live(owner.addr()),
        ensures
            *value == self@[owner.addr()],
    {
        self.cells[owner.addr].as_ref().unwrap()
    }

    /// Exclusive access to the pointee through its owner: the cell ends up
    /// holding whatever the caller leaves behind the reference, and no
    /// other cell changes.
    pub fn get_mut(&mut self, owner: &mut Boxed) -> (value: &mut V)
        requires
            old(self).live(old(owner).addr()),
        ensures
            *final(owner) == *old(owner),
            *value == old(self)@[old(owner).addr()],
            final(self)@ == old(self)@.insert(old(owner).addr(), *final(value)),
            final(self).allocated() == old(self).allocated(),
    {
        let cell: &mut Option<V> = &mut self.cells[owner.addr];
        match cell {
            Some(value) => value,
            None => unreached(),
        }
    }

    /// Overwrites the pointee through its owner; no other cell changes.
    pub fn set(&mut self, owner: &mut Boxed, value: V)
        requires
            old(self).live(old(owner).addr()),
        ensures
            *final(owner) == *old(owner),
            final(self)@ == old(self)@.insert(old(owner).addr(), value),
            final(self).allocated() == old(self).allocated(),
    {
        self.store(owner.addr, value);
    }

    /// Destroys the container: its cell is removed and the pointee handed
    /// back; no other cell changes.
    pub fn free(&mut self, owner: Boxed) -> (value: V)
        requires
            old(self).live(owner.addr()),
        ensures
            value == old(self)@[owner.addr()],
            final(self)@ == old(self)@.remove(owner.addr()),
            final(self).allocated() == old(self).allocated(),
    {
        let mut taken: Option<V> = None;
        core::mem::swap(&mut self.cells[owner.addr], &mut taken);
        assert(self@ =~= old(self)@.remove(owner.addr()));
        taken.unwrap()
    }

    /// Reads the pointee that `borrow` refers to.
    pub fn read<'t>(&self, borrow: &Ref<'t>) -> (value: &V)
        requires
            self.live(borrow.addr()),
        ensures
            *value == self@[borrow.addr()],
    {
        self.load(borrow.address())
    }

    /// Reads the pointee that the writable reference `borrow` refers to.
    pub fn peek<'t>(&self, borrow: &RefMut<'t>) -> (value: &V)
        requires
            self.live(borrow.addr()),
        ensures
            *value == self@[borrow.addr()],
    {
        self.load(borrow.address())
    }

    /// Writes `value` to the pointee that `borrow` refers to; no other cell
    /// changes, and the reference goes on referring to the same pointee.
    pub fn write<'t>(&mut self, borrow: &mut RefMut<'t>, value: V)
        requires
            old(self).live(old(borrow).addr()),
        ensures
            *final(borrow) == *old(borrow),
            final(self)@ == old(self)@.insert(old(borrow).addr(), value),
            final(self).allocated() == old(self).allocated(),
    {
        self.store(borrow.address(), value);
    }

    /// Places a handle over a container into a slot that holds another
    /// container of this heap: the old occupant is destroyed, which removes
    /// its cell and no other, and the slot holds the delivered container.
    pub fn place<'t, L: Placeable<'t, Boxed>>(&mut self, loaned: L, slot: &'t mut Boxed)
        requires
            old(self).live(old(slot).addr()),
        ensures
            *final(slot) == loaned.payload(),
            final(self)@ == old(self)@.remove(old(slot).addr()),
            final(self).allocated() == old(self).allocated(),
    {
        let outgoing = Boxed { addr: slot.addr };
        let _ = self.free(outgoing);
        loaned.place(slot);
    }

    /// Destroys the payload of a handle over a container of this heap,
    /// once its region is over: the container's cell is removed and no
    /// other; the pointee is handed back.
    pub fn discard<'t, L: Placeable<'t, Boxed>>(&mut self, loaned: L, region: &'t mut ()) -> (value: V)
        requires
            old(self).live(loaned.payload().addr()),
        ensures
            value == old(self)@[loaned.payload().addr()],
            final(self)@ == old(self)@.remove(loaned.payload().addr()),
            final(self).allocated() == old(self).allocated(),
    {
        let owner = loaned.take(region);
        self.free(owner)
    }

    /// Overwrites the live cell at `addr`.
    pub(crate) fn store(&mut self, addr: usize, value: V)
        requires
            old(self).live(addr),
        ensures
            final(self)@ == old(self)@.insert(addr, value),
            final(self).allocated() == old(self).allocated(),
    {
        self.cells[addr] = Some(value);
        assert(self@ =~= old(self)@.insert(addr, value));
    }

    /// Reads the live cell at `addr`.
    pub(crate) fn load(&self, addr: usize) -> (value: &V)
        requires
            self.live(addr),
        ensures
            *value == self@[addr],
    {
        self.cells[addr].as_ref().unwrap()
    }
}

} // verus!
