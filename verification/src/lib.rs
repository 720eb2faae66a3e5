//! Loans over owned indirect values.
//!
//! A loan handle ([`Loaned`], [`LoanedMut`]) owns a payload whose pointee has
//! been lent out for a region `'t`. The handle can be moved, merged with
//! others and finally placed into a destination while the reference minted
//! from it stays valid, because the reference names the pointee's address
//! and not the place where the owner is stored.
//!
//! Pointees live in a [`Heap`]. A container ([`Boxed`]) and the references
//! minted from it ([`Ref`], [`RefMut`]) are addresses into it, and every
//! read and write goes through the heap, so that what a reference writes
//! and what a destination later reads are stated over one map from
//! addresses to values. Regions are lifetimes: a destination stays borrowed
//! for the region of the handle placed into it, and a payload is taken out
//! only against a borrow that outlives the region. The handles themselves
//! work for any payload type.
//!
//! A handle never destroys its payload by itself. Whether losing a handle
//! has to be reported as a leak is decided by [`Loaned::leaks_on_drop`] and
//! [`LoanedMut::leaks_on_drop`]; [`MayLeak`] opts a payload out.

pub mod raw_loaned;
pub mod loanee;
pub mod may_leak;
pub mod heap;
pub mod loanable;
pub mod loaned;
pub mod loaned_mut;
pub mod place;
pub mod take;
pub mod convert;
pub mod compare;
pub mod laws;

pub use raw_loaned::RawLoaned;
pub use loanee::{leak_reported, Loanee, LoaneeMut};
pub use may_leak::MayLeak;
pub use heap::{Boxed, Heap};
pub use loanable::{Loanable, Ref, RefMut};
pub use loaned::{Loaned, LoanWith, Merge};
pub use loaned_mut::{LoanedMut, LoanWithMut, MergeMut};
pub use place::{Place, Placeable};
pub use take::{discard, take};
