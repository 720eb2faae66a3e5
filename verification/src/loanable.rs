use vstd::prelude::*;
use core::marker::PhantomData;
use crate::heap::Boxed;

verus! {

/// Containers that may be lent out: the pointee has an address of its own,
/// which depends on the container's value alone and so stays the same
/// wherever the container is moved.
///
/// A container that may keep its data inline has no such address and must
/// not implement this trait. `'t` is a region for which references to the
/// pointee may be minted: a container that is itself a reference is good
/// for no longer than the reference is.
pub trait Loanable<'t> {
    /// The address of the pointee.
    spec fn pointee(&self) -> usize;

    /// Computes [`Loanable::pointee`].
    fn target(&self) -> (addr: usize)
        ensures
            addr == self.pointee(),
    ;
}

impl<'t> Loanable<'t> for Boxed {
    open spec fn pointee(&self) -> usize {
        self.addr()
    }

    fn target(&self) -> (addr: usize) {
        self.address()
    }
}

/// A shared reference to a pointee, good for the region `'t`.
#[derive(Clone, Copy, Debug)]
pub struct Ref<'t> {
    addr: usize,
    region: PhantomData<&'t ()>,
}

impl<'t> Ref<'t> {
    /// The address referred to.
    pub closed spec fn addr(&self) -> usize {
        self.addr
    }

    /// Computes [`Ref::addr`].
    pub fn address(&self) -> (addr: usize)
        ensures
            addr == self.addr(),
    {
        self.addr
    }

    pub(crate) fn mint(addr: usize) -> (r: Self)
        ensures
            r.addr() == addr,
    {
        Ref { addr, region: PhantomData }
    }
}

/// A reference is itself a container that can be lent out: its pointee is
/// the one it refers to.
impl<'t, 'a: 't> Loanable<'t> for Ref<'a> {
    open spec fn pointee(&self) -> usize {
        self.addr()
    }

    fn target(&self) -> (addr: usize) {
        self.address()
    }
}

/// The one writable reference to a pointee, good for the region `'t`.
#[derive(Debug)]
pub struct RefMut<'t> {
    addr: usize,
    region: PhantomData<&'t mut ()>,
}

impl<'t> RefMut<'t> {
    /// The address referred to.
    pub closed spec fn addr(&self) -> usize {
        self.addr
    }

    /// Computes [`RefMut::addr`].
    pub fn address(&self) -> (addr: usize)
        ensures
            addr == self.addr(),
    {
        self.addr
    }

    pub(crate) fn mint(addr: usize) -> (r: Self)
        ensures
            r.addr() == addr,
    {
        RefMut { addr, region: PhantomData }
    }
}

/// A writable reference is itself a container that can be lent out: its
/// pointee is the one it refers to.
impl<'t, 'a: 't> Loanable<'t> for RefMut<'a> {
    open spec fn pointee(&self) -> usize {
        self.addr()
    }

    fn target(&self) -> (addr: usize) {
        self.address()
    }
}

} // verus!
