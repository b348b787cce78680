//! Device memory blocks: acquisition, validated copy and fill, release.

use vstd::prelude::*;
use vstd::layout::size_of;
use std::marker::PhantomData;
use crate::hip::flags::DeviceMallocFlag;
use crate::hip::result::{
    diagnostic, hip_translated, teardown_diagnostic, HipError, HipResult, HipStatus,
};
use crate::hip::stream::Stream;
use crate::result::ResultExt;

verus! {

/// The direction of a copy, handed to the driver as its raw code.
#[derive(Debug, Clone, Copy, PartialEq, Eq, Structural)]
pub enum MemoryCopyKind {
    HostToHost,
    HostToDevice,
    DeviceToHost,
    DeviceToDevice,
    Default,
    DeviceToDeviceNoCU,
}

impl MemoryCopyKind {
    /// The raw code of a direction.
    pub open spec fn raw(self) -> u32 {
        match self {
            MemoryCopyKind::HostToHost => 0,
            MemoryCopyKind::HostToDevice => 1,
            MemoryCopyKind::DeviceToHost => 2,
            MemoryCopyKind::DeviceToDevice => 3,
            MemoryCopyKind::Default => 4,
            MemoryCopyKind::DeviceToDeviceNoCU => 1024,
        }
    }

    /// The direction that a raw code names, if it names one.
    pub open spec fn decode(value: u32) -> Option<MemoryCopyKind> {
        if value == 0 {
            Some(MemoryCopyKind::HostToHost)
        } else if value == 1 {
            Some(MemoryCopyKind::HostToDevice)
        } else if value == 2 {
            Some(MemoryCopyKind::DeviceToHost)
        } else if value == 3 {
            Some(MemoryCopyKind::DeviceToDevice)
        } else if value == 4 {
            Some(MemoryCopyKind::Default)
        } else if value == 1024 {
            Some(MemoryCopyKind::DeviceToDeviceNoCU)
        } else {
            None
        }
    }

    /// The raw code of a direction.
    pub fn to_raw(self) -> (code: u32)
        ensures
            code == self.raw(),
    {
        match self {
            MemoryCopyKind::HostToHost => 0,
            MemoryCopyKind::HostToDevice => 1,
            MemoryCopyKind::DeviceToHost => 2,
            MemoryCopyKind::DeviceToDevice => 3,
            MemoryCopyKind::Default => 4,
            MemoryCopyKind::DeviceToDeviceNoCU => 1024,
        }
    }

    /// Reads a direction from its raw code; a code that names none is
    /// rejected as `InvalidValue`.
    pub fn try_from(value: u32) -> (r: HipResult<Self>)
        ensures
            r == match Self::decode(value) {
                Some(kind) => Ok::<MemoryCopyKind, HipError>(kind),
                None => Err(invalid_value()),
            },
    {
        match value {
            0 => Ok(MemoryCopyKind::HostToHost),
            1 => Ok(MemoryCopyKind::HostToDevice),
            2 => Ok(MemoryCopyKind::DeviceToHost),
            3 => Ok(MemoryCopyKind::DeviceToDevice),
            4 => Ok(MemoryCopyKind::Default),
            1024 => Ok(MemoryCopyKind::DeviceToDeviceNoCU),
            _ => Err(HipError::from_status(HipStatus::InvalidValue)),
        }
    }

    /// Reading the raw code of a direction gives the direction back.
    pub proof fn lemma_decode_raw(kind: MemoryCopyKind)
        ensures
            Self::decode(kind.raw()) == Some(kind),
    {
    }

    /// A code is read as a direction only if it is that direction's code.
    pub proof fn lemma_raw_decode(value: u32)
        ensures
            Self::decode(value) matches Some(kind) ==> kind.raw() == value,
    {
    }
}

/// The error with which an operation is rejected before any driver call.
pub open spec fn invalid_value() -> HipError {
    HipError { status: HipStatus::InvalidValue, code: 1 }
}

/// What a memory block is: where it lies on the device, how many elements
/// it holds and how many bytes one element takes.
pub struct Block {
    pub address: usize,
    pub count: usize,
    pub elem_size: nat,
}

impl Block {
    /// The block owns no device memory.
    pub open spec fn is_null(self) -> bool {
        self.address == 0
    }

    /// The size of the block in bytes.
    pub open spec fn bytes(self) -> nat {
        (self.count * self.elem_size) as nat
    }

    /// The block of no elements, which owns nothing.
    pub open spec fn empty(elem_size: nat) -> Block {
        Block { address: 0, count: 0, elem_size }
    }

    /// A block of no elements owns nothing, and the size in bytes fits
    /// the machine word.
    pub open spec fn wf(self) -> bool {
        &&& self.count == 0 ==> self.address == 0
        &&& self.bytes() <= usize::MAX
    }
}

/// The arguments of the driver's copy call.
#[derive(Debug, Clone, Copy, PartialEq, Eq, Structural)]
pub struct CopyCall {
    pub dst: usize,
    pub src: usize,
    pub bytes: usize,
    pub kind: u32,
}

/// The arguments of the driver's fill call.
#[derive(Debug, Clone, Copy, PartialEq, Eq, Structural)]
pub struct FillCall {
    pub address: usize,
    pub value: i32,
    pub bytes: usize,
}

/// What a fill comes to before any driver call.
#[derive(Debug, Clone, Copy, PartialEq, Eq, Structural)]
pub enum FillPlan {
    /// The fill is refused with this error; the driver is not called.
    Reject(HipError),
    /// There is nothing to fill; the driver is not called.
    Nothing,
    /// The driver is called with these arguments.
    Call(FillCall),
}

/// The copy call for a source and a destination: none where either has no
/// memory or the destination holds fewer elements than the source; else
/// the whole source, in bytes, from its address to the destination's.
pub open spec fn copy_call(src: Block, dst: Block, kind: MemoryCopyKind) -> Option<CopyCall> {
    if src.is_null() || dst.is_null() || dst.count < src.count {
        None
    } else {
        Some(
            CopyCall {
                dst: dst.address,
                src: src.address,
                bytes: src.bytes() as usize,
                kind: kind.raw(),
            },
        )
    }
}

/// What a fill of `size` bytes with `value` comes to: refused where the
/// length is above the size of the block in bytes; nothing for a length of
/// 0; refused where the block has no memory; else the call on the block's
/// address.
pub open spec fn fill_plan(block: Block, value: u8, size: usize) -> FillPlan {
    if size > block.bytes() {
        FillPlan::Reject(invalid_value())
    } else if size == 0 {
        FillPlan::Nothing
    } else if block.is_null() {
        FillPlan::Reject(invalid_value())
    } else {
        FillPlan::Call(FillCall { address: block.address, value: value as i32, bytes: size })
    }
}

/// The address that is given back to the driver when a block is released:
/// none for a block without memory.
pub open spec fn release_call(block: Block) -> Option<usize> {
    if block.is_null() {
        None
    } else {
        Some(block.address)
    }
}

/// Copies `size` bytes from `src` to `dst` in the direction `kind`.
/// `copy_fn` is called once with these arguments, the direction by its raw
/// code, and its raw code is translated. Nothing is checked here: the
/// caller answers for the two addresses.
pub fn memory_copy<F>(dst: usize, src: usize, size: usize, kind: MemoryCopyKind, copy_fn: F) -> (r:
    HipResult<()>) where F: FnOnce(CopyCall) -> u32
    requires
        call_requires(copy_fn, (CopyCall { dst, src, bytes: size, kind: kind.raw() },)),
    ensures
        exists|code: u32|
            call_ensures(copy_fn, (CopyCall { dst, src, bytes: size, kind: kind.raw() },), code)
                && r == hip_translated((), code),
{
    let call = CopyCall { dst, src, bytes: size, kind: kind.to_raw() };
    let code = copy_fn(call);
    let r = ((), code).to_result();
    assert(call_ensures(copy_fn, (call,), code) && r == hip_translated((), code));
    r
}

/// A block of device memory that holds `size` elements of type `T`. It has
/// one owner and is given back to the driver at most once.
#[derive(Debug)]
pub struct MemoryPointer<T> {
    pointer: usize,
    size: usize,
    marker: PhantomData<T>,
}

impl<T> View for MemoryPointer<T> {
    type V = Block;

    closed spec fn view(&self) -> Block {
        Block { address: self.pointer, count: self.size, elem_size: size_of::<T>() }
    }
}

/// The outcome of an acquisition, with the block taken by its view.
pub open spec fn viewed<T>(r: HipResult<MemoryPointer<T>>) -> Result<Block, HipError> {
    match r {
        Ok(block) => Ok(block@),
        Err(e) => Err(e),
    }
}

impl<T> MemoryPointer<T> {
    #[verifier::type_invariant]
    closed spec fn inv(self) -> bool {
        self@.wf()
    }

    /// The empty block: no elements, no device memory.
    pub fn null() -> (block: Self)
        ensures
            block@ == Block::empty(size_of::<T>()),
    {
        MemoryPointer { pointer: 0, size: 0, marker: PhantomData }
    }

    /// Translates the outcome of an allocation of `size` elements: the
    /// block at `address` for code 0, else the classified error and no
    /// block.
    pub fn acquired(size: usize, address: usize, code: u32) -> (r: HipResult<Self>)
        requires
            size != 0,
            size * size_of::<T>() <= usize::MAX,
        ensures
            r matches Ok(block) ==> block@.wf() && block@.elem_size == size_of::<T>(),
            viewed(r) == hip_translated(
                Block { address, count: size, elem_size: size_of::<T>() },
                code,
            ),
    {
        if code == 0 {
            Ok(MemoryPointer { pointer: address, size, marker: PhantomData })
        } else {
            Err(HipError::new(code))
        }
    }

    /// Acquires a block of `size` elements. For `size == 0` the result is
    /// the empty block and `alloc_fn` is not called. Otherwise `alloc_fn` is
    /// called once with the size in bytes; it returns the address and the
    /// raw code of the driver's allocation, which are translated: a block
    /// at that address for code 0, else the classified error and no block.
    pub fn allocate_with_fn<F>(size: usize, alloc_fn: F) -> (r: HipResult<Self>) where
        F: FnOnce(usize) -> (usize, u32),

        requires
            size * size_of::<T>() <= usize::MAX,
            size != 0 ==> call_requires(alloc_fn, ((size * size_of::<T>()) as usize,)),
        ensures
            r matches Ok(block) ==> block@.wf() && block@.elem_size == size_of::<T>(),
            size == 0 ==> viewed(r) == Ok::<Block, HipError>(Block::empty(size_of::<T>())),
            size != 0 ==> exists|address: usize, code: u32|
                call_ensures(alloc_fn, ((size * size_of::<T>()) as usize,), (address, code))
                    && viewed(r) == hip_translated(
                    Block { address, count: size, elem_size: size_of::<T>() },
                    code,
                ),
    {
        if size == 0 {
            return Ok(Self::null());
        }
        let bytes: usize = size * std::mem::size_of::<T>();
        let (address, code) = alloc_fn(bytes);
        let r = Self::acquired(size, address, code);
        assert(call_ensures(alloc_fn, (bytes,), (address, code)) && viewed(r) == hip_translated(
            Block { address, count: size, elem_size: size_of::<T>() },
            code,
        ));
        r
    }

    /// The address of the block on the device; 0 for a block that owns
    /// nothing.
    pub fn as_pointer(&self) -> (address: usize)
        ensures
            address == self@.address,
            self@.elem_size == size_of::<T>(),
            self@.wf(),
    {
        proof {
            use_type_invariant(self);
        }
        self.pointer
    }

    /// The address of the block on the device, as `as_pointer` gives it.
    pub fn as_ptr(&self) -> (address: usize)
        ensures
            address == self@.address,
            self@.elem_size == size_of::<T>(),
            self@.wf(),
    {
        self.as_pointer()
    }

    /// The number of elements that the block holds.
    pub fn size(&self) -> (count: usize)
        ensures
            count == self@.count,
            self@.elem_size == size_of::<T>(),
            self@.wf(),
    {
        proof {
            use_type_invariant(self);
        }
        self.size
    }

    /// Whether the block owns no device memory.
    pub fn is_null(&self) -> (null: bool)
        ensures
            null == self@.is_null(),
            self@.elem_size == size_of::<T>(),
            self@.wf(),
    {
        proof {
            use_type_invariant(self);
        }
        self.pointer == 0
    }

    /// The view of a block of `T` has the size of `T` as the size of one
    /// element.
    pub proof fn lemma_elem_size(self)
        ensures
            self@.elem_size == size_of::<T>(),
    {
    }

    /// Acquires a block of `size` elements by the driver's plain
    /// allocation, as `allocate_with_fn` does.
    pub fn allocate<F>(size: usize, alloc_fn: F) -> (r: HipResult<Self>) where
        F: FnOnce(usize) -> (usize, u32),

        requires
            size * size_of::<T>() <= usize::MAX,
            size != 0 ==> call_requires(alloc_fn, ((size * size_of::<T>()) as usize,)),
        ensures
            r matches Ok(block) ==> block@.wf() && block@.elem_size == size_of::<T>(),
            size == 0 ==> viewed(r) == Ok::<Block, HipError>(Block::empty(size_of::<T>())),
            size != 0 ==> exists|address: usize, code: u32|
                call_ensures(alloc_fn, ((size * size_of::<T>()) as usize,), (address, code))
                    && viewed(r) == hip_translated(
                    Block { address, count: size, elem_size: size_of::<T>() },
                    code,
                ),
    {
        Self::allocate_with_fn(size, alloc_fn)
    }

    /// Acquires a block of `size` elements of the class of memory that
    /// `flag` selects. For `size == 0` the result is the empty block and
    /// `alloc_fn` is not called. Otherwise `alloc_fn` is called once with
    /// the size in bytes and the bits of the flag, and its outcome is
    /// translated as in `allocate_with_fn`.
    pub fn alloc_with_flag<F>(size: usize, flag: DeviceMallocFlag, alloc_fn: F) -> (r: HipResult<
        Self,
    >) where F: FnOnce(usize, u32) -> (usize, u32)
        requires
            size * size_of::<T>() <= usize::MAX,
            size != 0 ==> call_requires(alloc_fn, ((size * size_of::<T>()) as usize, flag@)),
        ensures
            r matches Ok(block) ==> block@.wf() && block@.elem_size == size_of::<T>(),
            size == 0 ==> viewed(r) == Ok::<Block, HipError>(Block::empty(size_of::<T>())),
            size != 0 ==> exists|address: usize, code: u32|
                call_ensures(
                    alloc_fn,
                    ((size * size_of::<T>()) as usize, flag@),
                    (address, code),
                ) && viewed(r) == hip_translated(
                    Block { address, count: size, elem_size: size_of::<T>() },
                    code,
                ),
    {
        if size == 0 {
            return Ok(Self::null());
        }
        let bits = flag.bits();
        let bytes: usize = size * std::mem::size_of::<T>();
        let (address, code) = alloc_fn(bytes, bits);
        let r = Self::acquired(size, address, code);
        assert(call_ensures(alloc_fn, (bytes, bits), (address, code)) && viewed(r)
            == hip_translated(Block { address, count: size, elem_size: size_of::<T>() }, code));
        r
    }

    /// Acquires a block of `size` elements by an allocation that is
    /// ordered on `stream`. For `size == 0` the result is the empty block
    /// and `alloc_fn` is not called. Otherwise `alloc_fn` is called once
    /// with the size in bytes and the handle of the stream, and its outcome
    /// is translated as in `allocate_with_fn`.
    pub fn alloc_async<F>(size: usize, stream: &Stream, alloc_fn: F) -> (r: HipResult<Self>) where
        F: FnOnce(usize, usize) -> (usize, u32),

        requires
            size * size_of::<T>() <= usize::MAX,
            size != 0 ==> call_requires(alloc_fn, ((size * size_of::<T>()) as usize, stream@)),
        ensures
            r matches Ok(block) ==> block@.wf() && block@.elem_size == size_of::<T>(),
            size == 0 ==> viewed(r) == Ok::<Block, HipError>(Block::empty(size_of::<T>())),
            size != 0 ==> exists|address: usize, code: u32|
                call_ensures(
                    alloc_fn,
                    ((size * size_of::<T>()) as usize, stream@),
                    (address, code),
                ) && viewed(r) == hip_translated(
                    Block { address, count: size, elem_size: size_of::<T>() },
                    code,
                ),
    {
        if size == 0 {
            return Ok(Self::null());
        }
        let handle = stream.handle();
        let bytes: usize = size * std::mem::size_of::<T>();
        let (address, code) = alloc_fn(bytes, handle);
        let r = Self::acquired(size, address, code);
        assert(call_ensures(alloc_fn, (bytes, handle), (address, code)) && viewed(r)
            == hip_translated(Block { address, count: size, elem_size: size_of::<T>() }, code));
        r
    }

    /// Decides what a copy of this block into `destination` hands to the
    /// driver: the call with its arguments, or the rejection as
    /// `InvalidValue` of a copy that has no memory at one end or a
    /// destination of fewer elements than the source.
    pub fn copy_plan(&self, destination: &MemoryPointer<T>, kind: MemoryCopyKind) -> (r: Result<
        CopyCall,
        HipError,
    >)
        ensures
            r == match copy_call(self@, destination@, kind) {
                Some(call) => Ok::<CopyCall, HipError>(call),
                None => Err(invalid_value()),
            },
    {
        if self.pointer == 0 || destination.pointer == 0 {
            return Err(HipError::from_status(HipStatus::InvalidValue));
        }
        if destination.size < self.size {
            return Err(HipError::from_status(HipStatus::InvalidValue));
        }
        let bytes_to_copy = self.size_in_bytes();
        Ok(
            CopyCall {
                dst: destination.pointer,
                src: self.pointer,
                bytes: bytes_to_copy,
                kind: kind.to_raw(),
            },
        )
    }

    /// Copies this block into `destination`. A copy that `copy_call`
    /// rejects fails with `InvalidValue` and `copy_fn` is not called.
    /// Otherwise `copy_fn` is called once with the call's arguments and its
    /// raw code is translated.
    pub fn copy_to<F>(&self, destination: &MemoryPointer<T>, kind: MemoryCopyKind, copy_fn: F) -> (r:
        HipResult<()>) where F: FnOnce(CopyCall) -> u32
        requires
            copy_call(self@, destination@, kind) matches Some(call) ==> call_requires(
                copy_fn,
                (call,),
            ),
        ensures
            match copy_call(self@, destination@, kind) {
                None => r == Err::<(), HipError>(invalid_value()),
                Some(call) => exists|code: u32|
                    call_ensures(copy_fn, (call,), code) && r == hip_translated((), code),
            },
    {
        match self.copy_plan(destination, kind) {
            Err(e) => Err(e),
            Ok(call) => {
                let code = copy_fn(call);
                let r = ((), code).to_result();
                assert(call_ensures(copy_fn, (call,), code) && r == hip_translated((), code));
                r
            },
        }
    }

    /// Decides what a fill of the first `size` bytes of this block hands to
    /// the driver.
    pub fn memset_plan(&self, value: u8, size: usize) -> (plan: FillPlan)
        ensures
            plan == fill_plan(self@, value, size),
    {
        if size > self.size_in_bytes() {
            return FillPlan::Reject(HipError::from_status(HipStatus::InvalidValue));
        }
        if size == 0 {
            return FillPlan::Nothing;
        }
        if self.pointer == 0 {
            return FillPlan::Reject(HipError::from_status(HipStatus::InvalidValue));
        }
        FillPlan::Call(FillCall { address: self.pointer, value: value as i32, bytes: size })
    }

    /// Fills the first `size` bytes of this block with `value`. A length
    /// above the size of the block in bytes fails with `InvalidValue`; a
    /// length of 0 succeeds; a block without memory fails with
    /// `InvalidValue`; in none of these is `fill_fn` called. Otherwise
    /// `fill_fn` is called once with the call's arguments and its raw code
    /// is translated. A block can be filled whole: its size in bytes is a
    /// length that reaches the driver.
    pub fn memset<F>(&self, value: u8, size: usize, fill_fn: F) -> (r: HipResult<()>) where
        F: FnOnce(FillCall) -> u32,

        requires
            fill_plan(self@, value, size) matches FillPlan::Call(call) ==> call_requires(
                fill_fn,
                (call,),
            ),
        ensures
            match fill_plan(self@, value, size) {
                FillPlan::Reject(e) => r == Err::<(), HipError>(e),
                FillPlan::Nothing => r == Ok::<(), HipError>(()),
                FillPlan::Call(call) => exists|code: u32|
                    call_ensures(fill_fn, (call,), code) && r == hip_translated((), code),
            },
    {
        match self.memset_plan(value, size) {
            FillPlan::Reject(e) => Err(e),
            FillPlan::Nothing => Ok(()),
            FillPlan::Call(call) => {
                let code = fill_fn(call);
                let r = ((), code).to_result();
                assert(call_ensures(fill_fn, (call,), code) && r == hip_translated((), code));
                r
            },
        }
    }

    /// Gives the block back to the driver; the block is consumed, so it
    /// cannot be given back twice. For a block without memory the result is
    /// success and `free_fn` is not called. Otherwise `free_fn` is called
    /// once with the address and its raw code is translated.
    pub fn free<F>(self, free_fn: F) -> (r: HipResult<()>) where F: FnOnce(usize) -> u32
        requires
            release_call(self@) matches Some(address) ==> call_requires(free_fn, (address,)),
        ensures
            match release_call(self@) {
                None => r == Ok::<(), HipError>(()),
                Some(address) => exists|code: u32|
                    call_ensures(free_fn, (address,), code) && r == hip_translated((), code),
            },
    {
        if self.pointer == 0 {
            return Ok(());
        }
        let code = free_fn(self.pointer);
        let r = ((), code).to_result();
        assert(call_ensures(free_fn, (self.pointer,), code) && r == hip_translated((), code));
        r
    }

    /// Releases the block at the end of its life, as `free` does, but
    /// without raising a failure: the classified error of a failed call is
    /// returned for the record, and `None` where there is nothing to
    /// record.
    pub fn release<F>(self, free_fn: F) -> (failure: Option<HipError>) where
        F: FnOnce(usize) -> u32,

        requires
            release_call(self@) matches Some(address) ==> call_requires(free_fn, (address,)),
        ensures
            match release_call(self@) {
                None => failure is None,
                Some(address) => exists|code: u32|
                    call_ensures(free_fn, (address,), code) && failure == diagnostic(code),
            },
    {
        if self.pointer == 0 {
            return None;
        }
        let code = free_fn(self.pointer);
        let failure = teardown_diagnostic(code);
        assert(call_ensures(free_fn, (self.pointer,), code) && failure == diagnostic(code));
        failure
    }

    /// The size of the block in bytes: the number of elements times the
    /// size of one element.
    pub fn size_in_bytes(&self) -> (bytes: usize)
        ensures
            bytes == self@.count * size_of::<T>(),
            bytes == self@.bytes(),
            self@.elem_size == size_of::<T>(),
            self@.wf(),
    {
        proof {
            use_type_invariant(self);
        }
        self.size * std::mem::size_of::<T>()
    }
}

/// The empty block is well formed, takes no bytes and is never given back
/// to the driver: its release makes no call.
pub proof fn lemma_empty_block_needs_no_release(elem_size: nat)
    ensures
        Block::empty(elem_size).wf(),
        Block::empty(elem_size).is_null(),
        Block::empty(elem_size).bytes() == 0,
        release_call(Block::empty(elem_size)) is None,
{
}

/// A block that a successful allocation of `count` elements of `elem_size`
/// bytes gives takes `count * elem_size` bytes.
pub proof fn lemma_acquired_block_bytes(address: usize, count: usize, elem_size: nat)
    requires
        count != 0,
    ensures
        hip_translated(Block { address, count, elem_size }, 0) matches Ok(block) && block.bytes()
            == count * elem_size && block.count == count,
{
}

/// A failed allocation gives no block, whatever address came with it.
pub proof fn lemma_failed_allocation_owns_nothing(block: Block, code: u32)
    requires
        code != 0,
    ensures
        hip_translated(block, code) is Err,
{
}

/// A copy into a destination of fewer elements than the source is
/// rejected before any driver call, and so is a copy with no memory at
/// either end.
pub proof fn lemma_copy_rejected(src: Block, dst: Block, kind: MemoryCopyKind)
    ensures
        dst.count < src.count ==> copy_call(src, dst, kind) is None,
        src.is_null() || dst.is_null() ==> copy_call(src, dst, kind) is None,
{
}

/// A copy between blocks that both have memory, into a destination of at
/// least as many elements, hands the driver the whole source in bytes.
pub proof fn lemma_copy_issued(src: Block, dst: Block, kind: MemoryCopyKind)
    requires
        src.wf(),
        !src.is_null(),
        !dst.is_null(),
        src.count <= dst.count,
    ensures
        copy_call(src, dst, kind) == Some(
            CopyCall {
                dst: dst.address,
                src: src.address,
                bytes: (src.count * src.elem_size) as usize,
                kind: kind.raw(),
            },
        ),
        (src.count * src.elem_size) as usize == src.count * src.elem_size,
{
}

/// A fill of more bytes than the block has is rejected as `InvalidValue`,
/// and a fill of no bytes does nothing; neither calls the driver, whatever
/// the block.
pub proof fn lemma_fill_without_call(block: Block, value: u8, size: usize)
    ensures
        size > block.bytes() ==> fill_plan(block, value, size) == FillPlan::Reject(
            invalid_value(),
        ),
        fill_plan(block, value, 0) == FillPlan::Nothing,
{
}

/// A fill that reaches the driver stays within the bytes of the block and
/// names its address.
pub proof fn lemma_fill_issued(block: Block, value: u8, size: usize)
    requires
        fill_plan(block, value, size) matches FillPlan::Call(_),
    ensures
        fill_plan(block, value, size) == FillPlan::Call(
            FillCall { address: block.address, value: value as i32, bytes: size },
        ),
        0 < size <= block.bytes(),
        block.address != 0,
{
}

/// A block that has memory can be filled whole, and in any part: every
/// length from one byte to the size of the block in bytes reaches the
/// driver with that length.
pub proof fn lemma_fill_within_block(block: Block, value: u8, size: usize)
    requires
        !block.is_null(),
        0 < size <= block.bytes(),
    ensures
        fill_plan(block, value, size) == FillPlan::Call(
            FillCall { address: block.address, value: value as i32, bytes: size },
        ),
{
}

} // verus!
