//! Typed, never-null addresses.

use core::marker::PhantomData;
use vstd::prelude::*;

verus! {

/// The address that stands for "no storage" where elements of type `T` are
/// concerned: the smallest address that is not null and is aligned for `T`.
pub open spec fn sentinel_address<T>() -> usize {
    vstd::layout::align_of::<T>() as usize
}

/// An address that is known not to be null, together with the type of the
/// elements it refers to.
///
/// A handle is either the sentinel for `T`, which carries no storage, or the
/// address of a block that the platform handed out. It can be copied freely
/// and owns nothing.
#[derive(Debug, PartialEq, Eq)]
pub struct Handle<T: ?Sized> {
    address: usize,
    marker: PhantomData<T>,
}

impl<T: ?Sized> View for Handle<T> {
    type V = usize;

    /// A handle is its address.
    closed spec fn view(&self) -> usize {
        self.address
    }
}

impl<T: ?Sized> Clone for Handle<T> {
    fn clone(&self) -> (copy: Self)
        ensures
            copy == *self,
    {
        *self
    }
}

impl<T: ?Sized> Copy for Handle<T> {

}

impl<T: ?Sized> Handle<T> {
    #[verifier::type_invariant]
    spec fn never_null(self) -> bool {
        self.address != 0
    }

    /// The handle that holds `address`.
    pub closed spec fn at(address: usize) -> Self {
        Handle { address, marker: PhantomData }
    }

    /// `at` and the view are inverse to each other.
    pub proof fn lemma_at_view(address: usize)
        ensures
            Self::at(address)@ == address,
    {
    }

    /// Two handles of one type with the same address are the same handle.
    pub proof fn lemma_view_at(self)
        ensures
            Self::at(self@) == self,
    {
    }

    /// Accepts any address but null.
    pub fn new(address: usize) -> (handle: Option<Self>)
        ensures
            handle == if address == 0 {
                None
            } else {
                Some(Self::at(address))
            },
    {
        if address == 0 {
            None
        } else {
            Some(Handle { address, marker: PhantomData })
        }
    }

    /// Takes the caller's word that `address` is not null.
    pub fn new_unchecked(address: usize) -> (handle: Self)
        requires
            address != 0,
        ensures
            handle == Self::at(address),
    {
        Handle { address, marker: PhantomData }
    }

    /// The address held, which is never null.
    pub fn address(&self) -> (address: usize)
        ensures
            address == self@,
            address != 0,
    {
        proof {
            use_type_invariant(self);
        }
        self.address
    }
}

impl<T> Handle<T> {
    /// The sentinel for `T`.
    pub fn dangling() -> (handle: Self)
        ensures
            handle == Self::at(sentinel_address::<T>()),
    {
        let align: usize = core::mem::align_of::<T>();
        proof {
            broadcast use vstd::layout::align_nonzero;
        }
        Handle { address: align, marker: PhantomData }
    }

    /// Whether this is the sentinel for `T`.
    pub fn is_dangling(&self) -> (dangling: bool)
        ensures
            dangling == (self@ == sentinel_address::<T>()),
    {
        self.address == core::mem::align_of::<T>()
    }
}

} // verus!
