//! The three operations: allocate, release, reallocate.
//!
//! Each operation decides first and lets the platform act second. The first
//! half ([`gen_malloc`], [`gen_free`], [`gen_realloc`]) looks at the element
//! type and the count and says whether the platform is needed at all; the
//! second half ([`complete`]) reads the platform's reply. Nothing here keeps
//! state between the two halves but the request itself.

use crate::handle::{sentinel_address, Handle};
use crate::request::{AllocError, Request, Step, Strategy};
use vstd::layout::{align_of, size_of};
use vstd::prelude::*;

verus! {

/// The alignment that is asked of the platform for elements of type `T`.
pub open spec fn request_align<T>(strategy: Strategy) -> usize {
    match strategy {
        Strategy::Explicit => align_of::<T>() as usize,
        Strategy::PointerMultiple => if align_of::<T>() >= size_of::<usize>() {
            align_of::<T>() as usize
        } else {
            size_of::<usize>() as usize
        },
        Strategy::Unaligned => 1,
    }
}

/// What `gen_malloc` decides.
pub open spec fn malloc_step<T>(strategy: Strategy, count: usize) -> Result<Step<T>, AllocError> {
    if size_of::<T>() == 0 || count == 0 {
        Ok(Step::Done(Handle::at(sentinel_address::<T>())))
    } else if count * size_of::<T>() > usize::MAX {
        Err(AllocError::Overflow)
    } else {
        Ok(
            Step::Call(
                Request::Allocate {
                    size: (count * size_of::<T>()) as usize,
                    align: request_align::<T>(strategy),
                },
            ),
        )
    }
}

/// What `gen_free` decides.
pub open spec fn free_step<T>(handle: Handle<T>) -> Option<Request> {
    if handle@ == sentinel_address::<T>() {
        None
    } else {
        Some(Request::Release { address: handle@ })
    }
}

/// What `gen_realloc` decides.
pub open spec fn realloc_step<T>(strategy: Strategy, handle: Handle<T>, new_count: usize) -> Result<
    Step<T>,
    AllocError,
> {
    if size_of::<T>() == 0 {
        Ok(Step::Done(handle))
    } else if new_count == 0 {
        match free_step(handle) {
            None => Ok(Step::Done(Handle::at(sentinel_address::<T>()))),
            Some(release) => Ok(Step::Call(release)),
        }
    } else if handle@ == sentinel_address::<T>() {
        malloc_step::<T>(strategy, new_count)
    } else if new_count * size_of::<T>() > usize::MAX {
        Err(AllocError::Overflow)
    } else {
        Ok(
            Step::Call(
                Request::Resize { address: handle@, size: (new_count * size_of::<T>()) as usize },
            ),
        )
    }
}

/// What `complete` makes of a reply.
pub open spec fn reply_result<T>(request: Request, reply: usize) -> Result<Handle<T>, AllocError> {
    match request {
        Request::Release { .. } => Ok(Handle::at(sentinel_address::<T>())),
        _ => if reply == 0 {
            Err(AllocError::AllocationFailure)
        } else {
            Ok(Handle::at(reply))
        },
    }
}

/// The request for a fresh block of `size` bytes that can hold elements of
/// type `T`, with the alignment in the form that the platform's primitive
/// takes.
pub fn malloc_aligned<T>(strategy: Strategy, size: usize) -> (request: Request)
    requires
        strategy.serves::<T>(),
    ensures
        request == (Request::Allocate { size, align: request_align::<T>(strategy) }),
{
    let natural: usize = core::mem::align_of::<T>();
    let align: usize = match strategy {
        Strategy::Explicit => natural,
        Strategy::PointerMultiple => {
            let pointer: usize = core::mem::size_of::<usize>();
            if natural >= pointer {
                natural
            } else {
                pointer
            }
        },
        Strategy::Unaligned => 1,
    };
    Request::Allocate { size, align }
}

/// Storage for `count` elements of type `T`.
///
/// For a zero-sized `T` or a `count` of zero the result is the sentinel and
/// the platform is left alone. Otherwise the byte size is computed first: if
/// it does not fit, the operation fails with `Overflow` before anything is
/// asked of the platform; if it fits, the platform is asked for a block of
/// that size.
pub fn gen_malloc<T>(strategy: Strategy, count: usize) -> (step: Result<Step<T>, AllocError>)
    requires
        strategy.serves::<T>(),
    ensures
        step == malloc_step::<T>(strategy, count),
{
    let size: usize = core::mem::size_of::<T>();
    if size == 0 || count == 0 {
        Ok(Step::Done(Handle::dangling()))
    } else {
        match count.checked_mul(size) {
            None => Err(AllocError::Overflow),
            Some(requested_size) => Ok(Step::Call(malloc_aligned::<T>(strategy, requested_size))),
        }
    }
}

/// Gives the storage behind `handle` back.
///
/// The sentinel has no storage behind it: for it there is nothing to do and
/// the platform is not called. Any other handle must come from this layer, for
/// this `T`, and be released once.
pub fn gen_free<T>(handle: Handle<T>) -> (release: Option<Request>)
    ensures
        release == free_step(handle),
{
    if handle.is_dangling() {
        None
    } else {
        Some(Request::Release { address: handle.address() })
    }
}

/// Storage for `new_count` elements in place of what `handle` refers to.
///
/// A zero-sized `T` keeps its handle. A `new_count` of zero releases the
/// storage and leaves the sentinel. The sentinel has nothing to resize, so
/// from it the operation is a fresh allocation. In every other case the block
/// is resized, unless the byte size does not fit: then the operation fails
/// with `Overflow`, nothing is asked of the platform and the block stays as it
/// is.
pub fn gen_realloc<T>(strategy: Strategy, handle: Handle<T>, new_count: usize) -> (step: Result<
    Step<T>,
    AllocError,
>)
    requires
        strategy.serves::<T>(),
    ensures
        step == realloc_step::<T>(strategy, handle, new_count),
{
    let size: usize = core::mem::size_of::<T>();
    if size == 0 {
        Ok(Step::Done(handle))
    } else if new_count == 0 {
        match gen_free(handle) {
            None => Ok(Step::Done(Handle::dangling())),
            Some(release) => Ok(Step::Call(release)),
        }
    } else if handle.is_dangling() {
        gen_malloc::<T>(strategy, new_count)
    } else {
        match new_count.checked_mul(size) {
            None => Err(AllocError::Overflow),
            Some(requested_size) => Ok(
                Step::Call(Request::Resize { address: handle.address(), size: requested_size }),
            ),
        }
    }
}

/// The result of an operation whose `request` the platform answered with
/// `reply`.
///
/// A null reply to `Allocate` or `Resize` is an `AllocationFailure`; after a
/// failed `Resize` the old block is still there and still the caller's. Any
/// other reply is the address of the block. `Release` has no reply, `reply` is
/// not looked at, and the result is the sentinel.
pub fn complete<T>(request: Request, reply: usize) -> (result: Result<Handle<T>, AllocError>)
    ensures
        result == reply_result::<T>(request, reply),
{
    match request {
        Request::Release { .. } => Ok(Handle::dangling()),
        _ => match Handle::new(reply) {
            None => Err(AllocError::AllocationFailure),
            Some(handle) => Ok(handle),
        },
    }
}

} // verus!
