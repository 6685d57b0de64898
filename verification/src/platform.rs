//! What this layer takes for granted about the platform.
//!
//! The platform keeps a set of blocks. This module writes down, as a relation
//! between the blocks before and after a request, what each primitive is
//! relied on to do. Nothing in here runs: it is the vocabulary in which the
//! laws about whole operations are stated.

use crate::handle::{sentinel_address, Handle};
use crate::operations::{free_step, malloc_step, realloc_step, reply_result};
use crate::request::{AllocError, Request, Step, Strategy};
use vstd::layout::{align_of, size_of};
use vstd::prelude::*;

verus! {

/// The blocks that the platform has handed out and not taken back: for the
/// address of each, the bytes stored in it. A byte that was never written has
/// some value, about which nothing is known.
pub type Heap = Map<usize, Seq<u8>>;

/// Whether the platform, holding `before`, may answer `request` with `reply`
/// and hold `after` from then on.
///
/// - `Allocate` either fails, with a null reply and no change, or adds one
///   block of the size asked for, at an address that was free and is a
///   multiple of the alignment asked for.
/// - `Resize`, on a block that is there, either fails, with a null reply and
///   no change, or puts a block of the new size in the old one's place, at the
///   same address or at one that was free, that starts with the old bytes as
///   far as both sizes reach.
/// - `Release`, on a block that is there, takes that block away.
///
/// No other block is touched.
pub open spec fn platform_step(before: Heap, request: Request, reply: usize, after: Heap) -> bool {
    match request {
        Request::Allocate { size, align } => {
            if reply == 0 {
                after == before
            } else {
                &&& !before.dom().contains(reply)
                &&& align != 0 ==> reply as int % align as int == 0
                &&& after == before.insert(reply, after[reply])
                &&& after[reply].len() == size
            }
        },
        Request::Resize { address, size } => {
            &&& before.dom().contains(address)
            &&& if reply == 0 {
                after == before
            } else {
                let kept = vstd::math::min(size as int, before[address].len() as int);
                &&& reply == address || !before.dom().contains(reply)
                &&& after == before.remove(address).insert(reply, after[reply])
                &&& after[reply].len() == size
                &&& after[reply].take(kept) == before[address].take(kept)
            }
        },
        Request::Release { address } => {
            &&& before.dom().contains(address)
            &&& after == before.remove(address)
        },
    }
}

/// Whether an operation that decided on `step` may end in `result`, with the
/// platform going from `before` to `after`.
pub open spec fn runs<T>(
    step: Result<Step<T>, AllocError>,
    before: Heap,
    result: Result<Handle<T>, AllocError>,
    after: Heap,
) -> bool {
    match step {
        Err(error) => result == Err::<Handle<T>, AllocError>(error) && after == before,
        Ok(Step::Done(handle)) => result == Ok::<Handle<T>, AllocError>(handle) && after == before,
        Ok(Step::Call(request)) => exists|reply: usize|
            #![trigger platform_step(before, request, reply, after)]
            platform_step(before, request, reply, after) && result == reply_result::<T>(
                request,
                reply,
            ),
    }
}

/// An allocation for `count` elements, from its decision to its result.
pub open spec fn allocates<T>(
    strategy: Strategy,
    count: usize,
    before: Heap,
    result: Result<Handle<T>, AllocError>,
    after: Heap,
) -> bool {
    runs(malloc_step::<T>(strategy, count), before, result, after)
}

/// A reallocation of `handle` for `new_count` elements, from its decision to
/// its result.
pub open spec fn reallocates<T>(
    strategy: Strategy,
    handle: Handle<T>,
    new_count: usize,
    before: Heap,
    result: Result<Handle<T>, AllocError>,
    after: Heap,
) -> bool {
    runs(realloc_step::<T>(strategy, handle, new_count), before, result, after)
}

/// A release of `handle`, from its decision to its end.
pub open spec fn releases<T>(handle: Handle<T>, before: Heap, after: Heap) -> bool {
    match free_step(handle) {
        None => after == before,
        Some(release) => platform_step(before, release, 0, after),
    }
}

/// Whether `handle` refers to a block in `heap` that has room for exactly
/// `count` elements of type `T`.
pub open spec fn stores<T>(heap: Heap, handle: Handle<T>, count: nat) -> bool {
    &&& handle@ != sentinel_address::<T>()
    &&& heap.dom().contains(handle@)
    &&& heap[handle@].len() == count * size_of::<T>()
}

/// Whether size and alignment of `T` fit the address-size integer, as they do
/// for every type that code can be compiled for.
pub open spec fn layout_fits<T>() -> bool {
    &&& size_of::<T>() <= usize::MAX
    &&& align_of::<T>() <= usize::MAX
}

} // verus!
