//! Plain allocation and release of device memory.

use vstd::prelude::*;
use vstd::layout::size_of;
use crate::hip::memory::{release_call, viewed, Block, MemoryPointer};
use crate::hip::result::hip_translated;
use crate::runtime::result::{runtime_translated, HipError, HipResult, Result};

verus! {

/// The outcome of an acquisition, with the block taken by its view.
pub open spec fn block_viewed<T>(r: Result<MemoryPointer<T>>) -> Result<Block> {
    match r {
        Ok(block) => Ok(block@),
        Err(e) => Err(e),
    }
}

/// Acquires a block of `size` elements. For `size == 0` the result is the
/// empty block and `alloc_fn` is not called. Otherwise `alloc_fn` is called
/// once with the size in bytes; it returns the address and the raw code,
/// which are translated: a block at that address for code 0, else the
/// classified error and no block.
pub fn malloc<T, F>(size: usize, alloc_fn: F) -> (r: Result<MemoryPointer<T>>) where
    F: FnOnce(usize) -> (usize, u32),

    requires
        size * size_of::<T>() <= usize::MAX,
        size != 0 ==> call_requires(alloc_fn, ((size * size_of::<T>()) as usize,)),
    ensures
        r matches Ok(block) ==> block@.wf() && block@.elem_size == size_of::<T>(),
        size == 0 ==> block_viewed(r) == Ok::<Block, HipError>(Block::empty(size_of::<T>())),
        size != 0 ==> exists|address: usize, code: u32|
            call_ensures(alloc_fn, ((size * size_of::<T>()) as usize,), (address, code))
                && block_viewed(r) == runtime_translated(
                Block { address, count: size, elem_size: size_of::<T>() },
                code,
            ),
{
    let inner = MemoryPointer::allocate(size, alloc_fn);
    let ghost inner_view = viewed(inner);
    let r = match inner {
        Ok(block) => Ok(block),
        Err(e) => Err(HipError::new(e.code)),
    };
    proof {
        if size != 0 {
            let bytes = (size * size_of::<T>()) as usize;
            let (address, code) = choose|address: usize, code: u32|
                call_ensures(alloc_fn, (bytes,), (address, code)) && inner_view == hip_translated(
                    Block { address, count: size, elem_size: size_of::<T>() },
                    code,
                );
            assert(call_ensures(alloc_fn, (bytes,), (address, code)) && block_viewed(r)
                == runtime_translated(
                Block { address, count: size, elem_size: size_of::<T>() },
                code,
            ));
        }
    }
    r
}

/// Gives a block back to the driver; the block is consumed. For a block
/// without memory the result is success and `free_fn` is not called.
/// Otherwise `free_fn` is called once with the address and its raw code is
/// translated.
pub fn free<T, F>(ptr: MemoryPointer<T>, free_fn: F) -> (r: Result<()>) where
    F: FnOnce(usize) -> u32,

    requires
        release_call(ptr@) matches Some(address) ==> call_requires(free_fn, (address,)),
    ensures
        match release_call(ptr@) {
            None => r == Ok::<(), HipError>(()),
            Some(address) => exists|code: u32|
                call_ensures(free_fn, (address,), code) && r == runtime_translated((), code),
        },
{
    if ptr.is_null() {
        return Ok(());
    }
    let address = ptr.as_pointer();
    let code = free_fn(address);
    let r = ((), code).to_result();
    assert(call_ensures(free_fn, (address,), code) && r == runtime_translated((), code));
    r
}

} // verus!
