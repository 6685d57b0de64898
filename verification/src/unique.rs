//! Exclusive ownership of what a handle refers to.

use crate::handle::Handle;
use core::marker::PhantomData;
use vstd::prelude::*;

verus! {

/// A handle whose holder alone owns what is stored behind it.
///
/// The wrapper is bookkeeping, not a resource: it neither allocates nor
/// releases, and dropping it leaves the storage as it is. Whoever embeds it
/// releases the storage, since only they know for how many elements it was
/// made. It cannot be copied, and it can go to another thread, or be shared
/// with one, exactly when a `T` can.
pub struct Unique<T: ?Sized> {
    pointer: Handle<T>,
    marker: PhantomData<T>,
}

impl<T: ?Sized> View for Unique<T> {
    type V = Handle<T>;

    /// The handle that is owned.
    closed spec fn view(&self) -> Handle<T> {
        self.pointer
    }
}

impl<T: ?Sized> Unique<T> {
    /// Takes ownership of what `pointer` refers to.
    ///
    /// The caller hands the ownership over: from here on neither `pointer` nor
    /// a copy of it may be used as if it owned the storage. Nothing checks
    /// this.
    pub fn new(pointer: Handle<T>) -> (unique: Self)
        ensures
            unique@ == pointer,
    {
        Unique { pointer, marker: PhantomData }
    }

    /// Takes ownership of what is stored at `address`, unless `address` is
    /// null.
    pub fn from_address(address: usize) -> (unique: Option<Self>)
        ensures
            unique is None <==> address == 0,
            unique matches Some(owner) ==> owner@ == Handle::<T>::at(address),
    {
        match Handle::new(address) {
            None => None,
            Some(pointer) => Some(Unique::new(pointer)),
        }
    }

    /// The handle that is owned. Ownership stays where it is.
    pub fn as_non_null_ptr(&self) -> (pointer: Handle<T>)
        ensures
            pointer == self@,
    {
        self.pointer
    }
}

} // verus!
