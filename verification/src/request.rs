//! What passes between this layer and the platform.

use crate::handle::Handle;
use vstd::prelude::*;

verus! {

/// How the platform's allocating primitive treats alignment. The embedding
/// code picks one when it is built and passes the same one to every call.
#[derive(Clone, Copy, Debug, PartialEq, Eq)]
pub enum Strategy {
    /// The primitive takes the alignment as a parameter and honours any power
    /// of two.
    Explicit,
    /// The primitive takes the alignment as a parameter, which has to be a
    /// power of two and a multiple of the size of a pointer.
    PointerMultiple,
    /// The primitive takes a size only, and this layer relies on nothing but
    /// byte alignment of what it returns.
    Unaligned,
}

/// One call of a platform primitive. Addresses and sizes are in bytes.
#[derive(Clone, Copy, Debug, PartialEq, Eq)]
pub enum Request {
    /// A fresh block of `size` bytes whose address is a multiple of `align`.
    /// The reply is the block's address, or null.
    Allocate { size: usize, align: usize },
    /// The block at `address`, resized to `size` bytes, in place or moved.
    /// The reply is the block's address afterwards, or null, in which case the
    /// block is as it was.
    Resize { address: usize, size: usize },
    /// The block at `address` goes back to the platform. There is no reply.
    Release { address: usize },
}

/// Why an operation produced no handle.
#[derive(Clone, Copy, Debug, PartialEq, Eq)]
pub enum AllocError {
    /// The number of bytes asked for does not fit the address-size integer.
    /// The platform was not asked for anything.
    Overflow,
    /// The platform replied with null.
    AllocationFailure,
}

/// Where an operation stands after its first half.
#[derive(Debug, PartialEq, Eq)]
pub enum Step<T> {
    /// Finished: the platform is not involved.
    Done(Handle<T>),
    /// The platform has to serve this request; the operation's result follows
    /// from the reply.
    Call(Request),
}

impl<T> Clone for Step<T> {
    fn clone(&self) -> (copy: Self)
        ensures
            copy == *self,
    {
        *self
    }
}

impl<T> Copy for Step<T> {

}

impl Strategy {
    /// Whether elements of type `T` can be stored in what the primitive
    /// returns. Only `Unaligned` leaves any type out: those that need more
    /// than byte alignment.
    pub open spec fn serves<T>(self) -> bool {
        self is Unaligned ==> vstd::layout::align_of::<T>() == 1
    }

    /// Tests `serves` while the program runs, for callers that cannot show it
    /// beforehand.
    pub fn can_serve<T>(self) -> (served: bool)
        ensures
            served == self.serves::<T>(),
    {
        match self {
            Strategy::Unaligned => core::mem::align_of::<T>() == 1,
            _ => true,
        }
    }
}

} // verus!
