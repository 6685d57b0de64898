//! What holds of whole operations, whatever the platform replies.

use crate::handle::{sentinel_address, Handle};
use crate::operations::{free_step, malloc_step, realloc_step, reply_result, request_align};
use crate::platform::{
    allocates,
    layout_fits,
    platform_step,
    reallocates,
    releases,
    stores,
    Heap,
};
use crate::request::{AllocError, Request, Step, Strategy};
use vstd::arithmetic::power2::is_pow2;
use vstd::layout::{align_of, size_of};
use vstd::prelude::*;

verus! {

/// Of two powers of two the smaller divides the larger.
proof fn lemma_smaller_power_divides(small: int, large: int)
    requires
        is_pow2(small),
        is_pow2(large),
        small <= large,
    ensures
        large % small == 0,
    decreases large,
{
    reveal(is_pow2);
    if small == 1 {
    } else {
        lemma_smaller_power_divides(small / 2, large / 2);
        let half_small = small / 2;
        let half_large = large / 2;
        let quotient = half_large / half_small;
        assert(half_large == half_small * quotient) by (nonlinear_arith)
            requires
                half_small > 0,
                half_large % half_small == 0,
                quotient == half_large / half_small,
        ;
        assert(large == small * quotient) by (nonlinear_arith)
            requires
                small == 2 * half_small,
                large == 2 * half_large,
                half_large == half_small * quotient,
        ;
        vstd::arithmetic::div_mod::lemma_mod_multiples_basic(quotient, small);
        assert(small * quotient == quotient * small) by (nonlinear_arith);
    }
}

/// A multiple of a multiple is a multiple.
proof fn lemma_multiple_of_multiple(value: int, outer: int, inner: int)
    by (nonlinear_arith)
    requires
        inner > 0,
        outer > 0,
        outer % inner == 0,
        value % outer == 0,
    ensures
        value % inner == 0,
{
    assert(outer == inner * (outer / inner));
    assert(value == outer * (value / outer));
    assert(value == inner * ((outer / inner) * (value / outer)));
}

/// The alignment that goes to the platform is one that the primitive accepts
/// and that is enough for `T`: it is a multiple of the alignment of `T` and,
/// where the primitive wants that, of the size of a pointer.
pub proof fn law_request_align_suffices<T>(strategy: Strategy)
    requires
        layout_fits::<T>(),
        strategy.serves::<T>(),
    ensures
        request_align::<T>(strategy) != 0,
        request_align::<T>(strategy) as int % align_of::<T>() as int == 0,
        strategy is Explicit ==> request_align::<T>(strategy) == align_of::<T>(),
        strategy is PointerMultiple ==> request_align::<T>(strategy) as int % size_of::<
            usize,
        >() as int == 0,
        strategy is PointerMultiple ==> is_pow2(request_align::<T>(strategy) as int),
{
    broadcast use vstd::layout::align_properties, vstd::layout::align_nonzero;
    broadcast use vstd::layout::layout_of_primitives;

    vstd::layout::usize_size_pow2();
    let natural = align_of::<T>() as int;
    let pointer = size_of::<usize>() as int;
    if natural >= pointer {
        lemma_smaller_power_divides(pointer, natural);
    } else {
        lemma_smaller_power_divides(natural, pointer);
    }
    lemma_smaller_power_divides(natural, natural);
}

/// Where there is nothing to store, because `T` has no size or because no
/// element is asked for, an allocation ends in the sentinel and the platform
/// is not called.
pub proof fn law_nothing_to_store_needs_no_platform<T>(strategy: Strategy, count: usize)
    requires
        size_of::<T>() == 0 || count == 0,
    ensures
        malloc_step::<T>(strategy, count) == Ok::<Step<T>, AllocError>(
            Step::Done(Handle::at(sentinel_address::<T>())),
        ),
        forall|before: Heap, result: Result<Handle<T>, AllocError>, after: Heap|
            #![trigger allocates::<T>(strategy, count, before, result, after)]
            allocates::<T>(strategy, count, before, result, after) ==> after == before && result
                == Ok::<Handle<T>, AllocError>(Handle::at(sentinel_address::<T>())),
{
}

/// Every handle that an allocation ends in is not null and is aligned for
/// `T`, be it the sentinel or a block of the platform.
pub proof fn law_allocation_is_aligned<T>(
    strategy: Strategy,
    count: usize,
    before: Heap,
    handle: Handle<T>,
    after: Heap,
)
    requires
        layout_fits::<T>(),
        strategy.serves::<T>(),
        allocates::<T>(strategy, count, before, Ok(handle), after),
    ensures
        handle@ != 0,
        handle@ as int % align_of::<T>() as int == 0,
{
    broadcast use vstd::layout::align_nonzero;

    Handle::<T>::lemma_at_view(sentinel_address::<T>());
    match malloc_step::<T>(strategy, count) {
        Ok(Step::Call(request)) => {
            let reply = choose|reply: usize|
                #![trigger platform_step(before, request, reply, after)]
                platform_step(before, request, reply, after) && Ok::<Handle<T>, AllocError>(handle)
                    == reply_result::<T>(request, reply);
            Handle::<T>::lemma_at_view(reply);
            law_request_align_suffices::<T>(strategy);
            lemma_multiple_of_multiple(
                reply as int,
                request_align::<T>(strategy) as int,
                align_of::<T>() as int,
            );
        },
        _ => {},
    }
}

/// Where the bytes asked for do not fit the address-size integer, allocation
/// and reallocation end in `Overflow`, and the platform is not called: the
/// blocks, the caller's among them, are as they were.
pub proof fn law_overflow_is_reported_before_the_platform<T>(
    strategy: Strategy,
    handle: Handle<T>,
    count: usize,
)
    requires
        count * size_of::<T>() > usize::MAX,
    ensures
        malloc_step::<T>(strategy, count) == Err::<Step<T>, AllocError>(AllocError::Overflow),
        realloc_step::<T>(strategy, handle, count) == Err::<Step<T>, AllocError>(
            AllocError::Overflow,
        ),
        forall|before: Heap, result: Result<Handle<T>, AllocError>, after: Heap|
            #![trigger allocates::<T>(strategy, count, before, result, after)]
            allocates::<T>(strategy, count, before, result, after) ==> after == before && result
                == Err::<Handle<T>, AllocError>(AllocError::Overflow),
        forall|before: Heap, result: Result<Handle<T>, AllocError>, after: Heap|
            #![trigger reallocates::<T>(strategy, handle, count, before, result, after)]
            reallocates::<T>(strategy, handle, count, before, result, after) ==> after == before
                && result == Err::<Handle<T>, AllocError>(AllocError::Overflow),
{
    assert(size_of::<T>() != 0 && count != 0) by (nonlinear_arith)
        requires
            count * size_of::<T>() > usize::MAX,
    ;
}

/// An allocation that ends in a handle, for at least one element of a type
/// with a size, has added one block, of exactly the bytes asked for, at an
/// address that was free, and this is the block that the handle refers to.
pub proof fn law_allocation_gives_room<T>(
    strategy: Strategy,
    count: usize,
    before: Heap,
    handle: Handle<T>,
    after: Heap,
)
    requires
        size_of::<T>() != 0,
        count != 0,
        allocates::<T>(strategy, count, before, Ok(handle), after),
    ensures
        !before.dom().contains(handle@),
        after == before.insert(handle@, after[handle@]),
        after[handle@].len() == count * size_of::<T>(),
{
    match malloc_step::<T>(strategy, count) {
        Ok(Step::Call(request)) => {
            let reply = choose|reply: usize|
                #![trigger platform_step(before, request, reply, after)]
                platform_step(before, request, reply, after) && Ok::<Handle<T>, AllocError>(handle)
                    == reply_result::<T>(request, reply);
            Handle::<T>::lemma_at_view(reply);
        },
        _ => {},
    }
}

/// An allocation that ends in an error has changed nothing: every block is
/// where it was and holds what it held.
pub proof fn law_failed_allocation_leaves_the_blocks<T>(
    strategy: Strategy,
    count: usize,
    before: Heap,
    error: AllocError,
    after: Heap,
)
    requires
        allocates::<T>(strategy, count, before, Err(error), after),
    ensures
        after == before,
{
}

/// A reallocation that ends in an error has changed nothing: the caller's
/// block is not released, and the old handle is as good as it was.
pub proof fn law_failed_reallocation_leaves_the_blocks<T>(
    strategy: Strategy,
    handle: Handle<T>,
    new_count: usize,
    before: Heap,
    error: AllocError,
    after: Heap,
)
    requires
        reallocates::<T>(strategy, handle, new_count, before, Err(error), after),
    ensures
        after == before,
{
}

/// A reallocation that ends in a handle, of a block and for at least one
/// element, has put one block in the place of the old one: of exactly the
/// bytes asked for, at the old address or at one that was free, and holding
/// the bytes of the elements that fit both the old count and the new. The old
/// handle is good for nothing unless the block stayed where it was.
pub proof fn law_reallocation_replaces_the_block<T>(
    strategy: Strategy,
    handle: Handle<T>,
    count: usize,
    new_count: usize,
    before: Heap,
    moved: Handle<T>,
    after: Heap,
)
    requires
        size_of::<T>() != 0,
        new_count != 0,
        stores(before, handle, count as nat),
        reallocates::<T>(strategy, handle, new_count, before, Ok(moved), after),
    ensures
        moved@ == handle@ || !before.dom().contains(moved@),
        after == before.remove(handle@).insert(moved@, after[moved@]),
        after[moved@].len() == new_count * size_of::<T>(),
        count <= new_count ==> after[moved@].take(count * size_of::<T>()) == before[handle@],
        new_count <= count ==> after[moved@] == before[handle@].take(new_count * size_of::<T>()),
{
    let unit = size_of::<T>() as int;
    assert(count <= new_count ==> count * unit <= new_count * unit) by (nonlinear_arith)
        requires
            unit > 0,
    ;
    assert(new_count <= count ==> new_count * unit <= count * unit) by (nonlinear_arith)
        requires
            unit > 0,
    ;
    if new_count * size_of::<T>() <= usize::MAX {
        let size = (new_count * size_of::<T>()) as usize;
        let request = Request::Resize { address: handle@, size };
        assert(realloc_step::<T>(strategy, handle, new_count) == Ok::<Step<T>, AllocError>(
            Step::Call(request),
        ));
        let reply = choose|reply: usize|
            #![trigger platform_step(before, request, reply, after)]
            platform_step(before, request, reply, after) && Ok::<Handle<T>, AllocError>(moved)
                == reply_result::<T>(request, reply);
        Handle::<T>::lemma_at_view(reply);
    }
}

/// Reallocating a block for the number of elements that it has keeps every
/// byte of it. Where the operation fails, the block is as it was and where it
/// was.
pub proof fn law_same_count_keeps_contents<T>(
    strategy: Strategy,
    handle: Handle<T>,
    count: usize,
    before: Heap,
    result: Result<Handle<T>, AllocError>,
    after: Heap,
)
    requires
        count != 0,
        stores(before, handle, count as nat),
        reallocates::<T>(strategy, handle, count, before, result, after),
    ensures
        match result {
            Ok(moved) => after.dom().contains(moved@) && after[moved@] == before[handle@],
            Err(_) => after == before,
        },
{
    match result {
        Ok(moved) => {
            if size_of::<T>() != 0 {
                law_reallocation_replaces_the_block(
                    strategy,
                    handle,
                    count,
                    count,
                    before,
                    moved,
                    after,
                );
            }
        },
        Err(error) => {
            law_failed_reallocation_leaves_the_blocks(
                strategy,
                handle,
                count,
                before,
                error,
                after,
            );
        },
    }
}

/// Reallocating a block for fewer elements and then for more keeps the bytes
/// of the elements that were there throughout; what the other elements hold
/// is open. This is said for a platform that hands out no block at the
/// sentinel's address.
pub proof fn law_shrink_then_grow_keeps_prefix<T>(
    strategy: Strategy,
    handle: Handle<T>,
    count: usize,
    fewer: usize,
    more: usize,
    before: Heap,
    shrunk: Handle<T>,
    between: Heap,
    grown: Handle<T>,
    after: Heap,
)
    requires
        0 < fewer <= count,
        fewer <= more,
        stores(before, handle, count as nat),
        reallocates::<T>(strategy, handle, fewer, before, Ok(shrunk), between),
        shrunk@ != sentinel_address::<T>(),
        reallocates::<T>(strategy, shrunk, more, between, Ok(grown), after),
    ensures
        after.dom().contains(grown@),
        after[grown@].len() == more * size_of::<T>(),
        after[grown@].take(fewer * size_of::<T>()) == before[handle@].take(
            fewer * size_of::<T>(),
        ),
{
    if size_of::<T>() != 0 {
        law_reallocation_replaces_the_block(strategy, handle, count, fewer, before, shrunk, between);
        law_reallocation_replaces_the_block(strategy, shrunk, fewer, more, between, grown, after);
    } else {
        assert(count * size_of::<T>() == 0 && more * size_of::<T>() == 0 && fewer * size_of::<T>()
            == 0) by (nonlinear_arith)
            requires
                size_of::<T>() == 0,
        ;
    }
}

/// Releasing a block takes it, and nothing else, from the platform's blocks.
pub proof fn law_release_returns_the_block<T>(
    handle: Handle<T>,
    count: nat,
    before: Heap,
    after: Heap,
)
    requires
        stores(before, handle, count),
        releases(handle, before, after),
    ensures
        after == before.remove(handle@),
        !after.dom().contains(handle@),
{
}

/// Reallocating for no elements is releasing: the platform goes through the
/// same change, and what is left in the caller's hands is the sentinel. This
/// is said of handles that this layer can have produced for `T`, which for a
/// `T` without size is the sentinel alone.
pub proof fn law_realloc_to_nothing_is_release<T>(
    strategy: Strategy,
    handle: Handle<T>,
    before: Heap,
    result: Result<Handle<T>, AllocError>,
    after: Heap,
)
    requires
        size_of::<T>() == 0 ==> handle@ == sentinel_address::<T>(),
    ensures
        reallocates::<T>(strategy, handle, 0, before, result, after) <==> releases(
            handle,
            before,
            after,
        ) && result == Ok::<Handle<T>, AllocError>(Handle::at(sentinel_address::<T>())),
{
    handle.lemma_view_at();
    match free_step(handle) {
        Some(release) => {
            if releases(handle, before, after) {
                assert(platform_step(before, release, 0, after));
            }
        },
        None => {},
    }
}

/// Releasing the sentinel does nothing: the platform is not called.
pub proof fn law_release_of_sentinel_needs_no_platform<T>(before: Heap, after: Heap)
    requires
        releases(Handle::<T>::at(sentinel_address::<T>()), before, after),
    ensures
        free_step(Handle::<T>::at(sentinel_address::<T>())) == None::<Request>,
        after == before,
{
    Handle::<T>::lemma_at_view(sentinel_address::<T>());
}

} // verus!
