use std::collections::BTreeMap;
use std::mem::{align_of, size_of};
use typed_alloc::handle::Handle;
use typed_alloc::operations::{complete, gen_free, gen_malloc, gen_realloc};
use typed_alloc::request::{AllocError, Request, Step, Strategy};

/// A platform that keeps its blocks in a map and counts the calls it gets.
struct Platform {
    blocks: BTreeMap<usize, Vec<u8>>,
    next: usize,
    moves_on_resize: bool,
    out_of_memory: bool,
    allocate_calls: usize,
    resize_calls: usize,
    release_calls: usize,
}

impl Platform {
    fn new() -> Self {
        Platform {
            blocks: BTreeMap::new(),
            next: 0x10000,
            moves_on_resize: false,
            out_of_memory: false,
            allocate_calls: 0,
            resize_calls: 0,
            release_calls: 0,
        }
    }

    fn calls(&self) -> usize {
        self.allocate_calls + self.resize_calls + self.release_calls
    }

    fn place(&mut self, size: usize, align: usize) -> usize {
        let address = (self.next + align - 1) / align * align;
        self.next = address + size.max(1);
        address
    }

    fn serve(&mut self, request: Request) -> usize {
        match request {
            Request::Allocate { size, align } => {
                self.allocate_calls += 1;
                if self.out_of_memory {
                    return 0;
                }
                let address = self.place(size, align);
                self.blocks.insert(address, vec![0xAA; size]);
                address
            }
            Request::Resize { address, size } => {
                self.resize_calls += 1;
                if self.out_of_memory {
                    return 0;
                }
                let mut bytes = self.blocks.remove(&address).expect("resize of a block that is not there");
                bytes.resize(size, 0xBB);
                let target = if self.moves_on_resize { self.place(size, 16) } else { address };
                self.blocks.insert(target, bytes);
                target
            }
            Request::Release { address } => {
                self.release_calls += 1;
                self.blocks.remove(&address).expect("release of a block that is not there");
                0
            }
        }
    }

    fn write(&mut self, handle: Handle<u64>, values: &[u64]) {
        let block = self.blocks.get_mut(&handle.address()).expect("write to a block that is not there");
        for (index, value) in values.iter().enumerate() {
            block[index * 8..index * 8 + 8].copy_from_slice(&value.to_ne_bytes());
        }
    }

    fn read(&self, handle: Handle<u64>, count: usize) -> Vec<u64> {
        let block = &self.blocks[&handle.address()];
        let mut values = Vec::new();
        for index in 0..count {
            let mut bytes = [0u8; 8];
            bytes.copy_from_slice(&block[index * 8..index * 8 + 8]);
            values.push(u64::from_ne_bytes(bytes));
        }
        values
    }
}

const STRATEGY: Strategy = Strategy::PointerMultiple;

fn finish<T>(platform: &mut Platform, step: Result<Step<T>, AllocError>) -> Result<Handle<T>, AllocError> {
    match step {
        Err(error) => Err(error),
        Ok(Step::Done(handle)) => Ok(handle),
        Ok(Step::Call(request)) => {
            let reply = platform.serve(request);
            complete::<T>(request, reply)
        }
    }
}

fn allocate<T>(platform: &mut Platform, count: usize) -> Result<Handle<T>, AllocError> {
    let step = gen_malloc::<T>(STRATEGY, count);
    finish(platform, step)
}

fn reallocate<T>(platform: &mut Platform, handle: Handle<T>, count: usize) -> Result<Handle<T>, AllocError> {
    let step = gen_realloc::<T>(STRATEGY, handle, count);
    finish(platform, step)
}

fn release<T>(platform: &mut Platform, handle: Handle<T>) {
    if let Some(request) = gen_free(handle) {
        platform.serve(request);
    }
}

#[test]
fn four_u64_grow_to_eight() {
    let mut platform = Platform::new();
    let handle = allocate::<u64>(&mut platform, 4).expect("the platform has room");
    assert_ne!(handle.address(), 0);
    assert_eq!(handle.address() % 8, 0);
    assert_eq!(platform.blocks[&handle.address()].len(), 32);
    platform.write(handle, &[1, 2, 3, 4]);
    let grown = reallocate(&mut platform, handle, 8).expect("the platform has room");
    assert_eq!(platform.blocks[&grown.address()].len(), 64);
    assert_eq!(platform.read(grown, 4), vec![1, 2, 3, 4]);
    release(&mut platform, grown);
    assert!(platform.blocks.is_empty());
    assert_eq!(platform.allocate_calls, 1);
    assert_eq!(platform.resize_calls, 1);
    assert_eq!(platform.release_calls, 1);
}

#[test]
fn four_u64_grow_to_eight_elsewhere() {
    let mut platform = Platform::new();
    platform.moves_on_resize = true;
    let handle = allocate::<u64>(&mut platform, 4).expect("the platform has room");
    platform.write(handle, &[1, 2, 3, 4]);
    let grown = reallocate(&mut platform, handle, 8).expect("the platform has room");
    assert_ne!(grown, handle);
    assert_eq!(platform.read(grown, 4), vec![1, 2, 3, 4]);
    assert!(!platform.blocks.contains_key(&handle.address()));
    release(&mut platform, grown);
    assert!(platform.blocks.is_empty());
}

#[test]
fn same_count_keeps_every_value() {
    for moves in [false, true] {
        let mut platform = Platform::new();
        platform.moves_on_resize = moves;
        let handle = allocate::<u64>(&mut platform, 6).expect("the platform has room");
        platform.write(handle, &[10, 20, 30, 40, 50, 60]);
        let again = reallocate(&mut platform, handle, 6).expect("the platform has room");
        assert_eq!(platform.read(again, 6), vec![10, 20, 30, 40, 50, 60]);
        assert_eq!(platform.blocks.len(), 1);
    }
}

#[test]
fn shrink_then_grow_keeps_the_first_three() {
    for moves in [false, true] {
        let mut platform = Platform::new();
        platform.moves_on_resize = moves;
        let handle = allocate::<u64>(&mut platform, 10).expect("the platform has room");
        platform.write(handle, &[1, 2, 3, 4, 5, 6, 7, 8, 9, 10]);
        let shrunk = reallocate(&mut platform, handle, 3).expect("the platform has room");
        assert_eq!(platform.blocks[&shrunk.address()].len(), 24);
        let grown = reallocate(&mut platform, shrunk, 10).expect("the platform has room");
        assert_eq!(platform.blocks[&grown.address()].len(), 80);
        assert_eq!(platform.read(grown, 3), vec![1, 2, 3]);
    }
}

#[test]
fn nothing_to_store_makes_no_call() {
    let mut platform = Platform::new();
    assert_eq!(allocate::<()>(&mut platform, 5), Ok(Handle::dangling()));
    assert_eq!(allocate::<()>(&mut platform, usize::MAX), Ok(Handle::dangling()));
    assert_eq!(allocate::<u64>(&mut platform, 0), Ok(Handle::dangling()));
    assert_eq!(
        allocate::<u128>(&mut platform, 0).map(|handle| handle.address()),
        Ok(align_of::<u128>())
    );
    assert_eq!(platform.calls(), 0);
}

#[test]
fn overflow_makes_no_call() {
    let mut platform = Platform::new();
    assert_eq!(allocate::<u64>(&mut platform, usize::MAX), Err(AllocError::Overflow));
    assert_eq!(allocate::<u16>(&mut platform, usize::MAX / 2 + 1), Err(AllocError::Overflow));
    assert_eq!(platform.calls(), 0);
    let handle = allocate::<u64>(&mut platform, 2).expect("the platform has room");
    platform.write(handle, &[7, 8]);
    assert_eq!(reallocate(&mut platform, handle, usize::MAX), Err(AllocError::Overflow));
    assert_eq!(platform.calls(), 1);
    assert_eq!(platform.read(handle, 2), vec![7, 8]);
    assert_eq!(
        reallocate(&mut platform, Handle::<u64>::dangling(), usize::MAX / 2),
        Err(AllocError::Overflow)
    );
    assert_eq!(platform.calls(), 1);
}

#[test]
fn release_of_the_sentinel_makes_no_call() {
    let mut platform = Platform::new();
    release(&mut platform, Handle::<u64>::dangling());
    release(&mut platform, Handle::<()>::dangling());
    let nothing = allocate::<u32>(&mut platform, 0).expect("no storage is asked for");
    release(&mut platform, nothing);
    assert_eq!(platform.calls(), 0);
}

#[test]
fn reallocation_to_nothing_is_a_release() {
    let mut by_realloc = Platform::new();
    let first = allocate::<u64>(&mut by_realloc, 4).expect("the platform has room");
    assert_eq!(reallocate(&mut by_realloc, first, 0), Ok(Handle::dangling()));

    let mut by_release = Platform::new();
    let second = allocate::<u64>(&mut by_release, 4).expect("the platform has room");
    release(&mut by_release, second);

    assert_eq!(first, second);
    assert_eq!(by_realloc.blocks, by_release.blocks);
    assert!(by_realloc.blocks.is_empty());
    assert_eq!(by_realloc.release_calls, 1);
    assert_eq!(by_realloc.resize_calls, 0);
    assert_eq!(by_release.release_calls, 1);
}

#[test]
fn reallocation_from_nothing_is_an_allocation() {
    let mut platform = Platform::new();
    let nothing = allocate::<u64>(&mut platform, 0).expect("no storage is asked for");
    let handle = reallocate(&mut platform, nothing, 5).expect("the platform has room");
    assert!(!handle.is_dangling());
    assert_eq!(platform.blocks[&handle.address()].len(), 40);
    assert_eq!(platform.allocate_calls, 1);
    assert_eq!(platform.resize_calls, 0);
    let nothing_again = reallocate(&mut platform, handle, 0).expect("a release does not fail");
    assert!(nothing_again.is_dangling());
    assert!(platform.blocks.is_empty());
}

#[test]
fn zero_sized_elements_never_reach_the_platform() {
    let mut platform = Platform::new();
    let handle = allocate::<()>(&mut platform, 3).expect("no storage is asked for");
    let more = reallocate(&mut platform, handle, 300).expect("no storage is asked for");
    assert_eq!(more, handle);
    let none = reallocate(&mut platform, more, 0).expect("no storage is asked for");
    assert_eq!(none, handle);
    release(&mut platform, none);
    assert_eq!(platform.calls(), 0);
}

#[test]
fn allocated_addresses_are_aligned() {
    let mut platform = Platform::new();
    for count in 1..20 {
        let bytes = allocate::<u8>(&mut platform, count).expect("the platform has room");
        assert_ne!(bytes.address(), 0);
        let words = allocate::<u64>(&mut platform, count).expect("the platform has room");
        assert_eq!(words.address() % align_of::<u64>(), 0);
        let wide = allocate::<u128>(&mut platform, count).expect("the platform has room");
        assert_eq!(wide.address() % align_of::<u128>(), 0);
        let rows = allocate::<[u128; 3]>(&mut platform, count).expect("the platform has room");
        assert_eq!(rows.address() % align_of::<[u128; 3]>(), 0);
        assert_eq!(platform.blocks[&rows.address()].len(), count * size_of::<[u128; 3]>());
    }
}

#[test]
fn failed_allocation_is_reported() {
    let mut platform = Platform::new();
    platform.out_of_memory = true;
    assert_eq!(allocate::<u64>(&mut platform, 4), Err(AllocError::AllocationFailure));
    assert_eq!(platform.allocate_calls, 1);
    assert!(platform.blocks.is_empty());
    assert_eq!(allocate::<u64>(&mut platform, 0), Ok(Handle::dangling()));
}

#[test]
fn failed_resize_leaves_the_block() {
    let mut platform = Platform::new();
    let handle = allocate::<u64>(&mut platform, 2).expect("the platform has room");
    platform.write(handle, &[11, 22]);
    platform.out_of_memory = true;
    let step = gen_realloc(STRATEGY, handle, 4);
    assert_eq!(step, Ok(Step::Call(Request::Resize { address: handle.address(), size: 32 })));
    assert_eq!(complete::<u64>(Request::Resize { address: handle.address(), size: 32 }, 0), Err(AllocError::AllocationFailure));
    assert_eq!(platform.read(handle, 2), vec![11, 22]);
    platform.out_of_memory = false;
    let grown = reallocate(&mut platform, handle, 4).expect("the platform has room");
    assert_eq!(platform.read(grown, 2), vec![11, 22]);
    release(&mut platform, grown);
    assert!(platform.blocks.is_empty());
}
