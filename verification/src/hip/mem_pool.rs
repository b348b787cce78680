//! Memory pools: the properties a pool is created with, and the pool as an
//! owned handle.

use vstd::prelude::*;
use crate::hip::result::{
    diagnostic, hip_translated, teardown_diagnostic, HipError, HipResult,
};

verus! {

/// How the memory of a pool is allocated.
#[derive(Debug, Clone, Copy, PartialEq, Eq, Structural)]
pub enum MemAllocationType {
    Invalid,
    Pinned,
}

impl MemAllocationType {
    pub open spec fn raw(self) -> u32 {
        match self {
            MemAllocationType::Invalid => 0,
            MemAllocationType::Pinned => 1,
        }
    }

    /// The raw code of the type.
    pub fn to_raw(self) -> (code: u32)
        ensures
            code == self.raw(),
    {
        match self {
            MemAllocationType::Invalid => 0,
            MemAllocationType::Pinned => 1,
        }
    }
}

/// The kind of handle by which allocations of a pool can be shared.
#[derive(Debug, Clone, Copy, PartialEq, Eq, Structural)]
pub enum MemAllocationHandleType {
    NoHandle,
    PosixFileDescriptor,
    Win32,
}

impl MemAllocationHandleType {
    pub open spec fn raw(self) -> u32 {
        match self {
            MemAllocationHandleType::NoHandle => 0,
            MemAllocationHandleType::PosixFileDescriptor => 1,
            MemAllocationHandleType::Win32 => 2,
        }
    }

    /// The raw code of the kind.
    pub fn to_raw(self) -> (code: u32)
        ensures
            code == self.raw(),
    {
        match self {
            MemAllocationHandleType::NoHandle => 0,
            MemAllocationHandleType::PosixFileDescriptor => 1,
            MemAllocationHandleType::Win32 => 2,
        }
    }
}

/// The kind of place where memory lies.
#[derive(Debug, Clone, Copy, PartialEq, Eq, Structural)]
pub enum MemLocationType {
    Invalid,
    Device,
}

impl MemLocationType {
    pub open spec fn raw(self) -> u32 {
        match self {
            MemLocationType::Invalid => 0,
            MemLocationType::Device => 1,
        }
    }

    /// The raw code of the kind.
    pub fn to_raw(self) -> (code: u32)
        ensures
            code == self.raw(),
    {
        match self {
            MemLocationType::Invalid => 0,
            MemLocationType::Device => 1,
        }
    }
}

/// A place where memory lies: the kind of place and its number.
#[derive(Debug, Clone, Copy, PartialEq, Eq, Structural)]
pub struct MemLocation {
    pub type_: MemLocationType,
    pub id: i32,
}

/// The properties that a pool is created with. A maximum size of 0 leaves
/// the limit to the driver.
#[derive(Debug, Clone, Copy, PartialEq, Eq, Structural)]
pub struct MemPoolProps {
    pub alloc_type: MemAllocationType,
    pub handle_types: MemAllocationHandleType,
    pub location: MemLocation,
    pub max_size: usize,
}

/// The properties of a pool in the layout that the driver reads: raw codes
/// in place of names, no security attributes, and reserved bytes at zero.
#[derive(Debug, Clone, Copy)]
pub struct RawMemPoolProps {
    pub alloc_type: u32,
    pub handle_types: u32,
    pub location_type: u32,
    pub location_id: i32,
    pub security_attributes: usize,
    pub max_size: usize,
    pub reserved: [u8; 56],
}

/// The properties of a pool of pinned memory on device 0 that is shared by
/// file descriptors and has no limit of its own.
pub open spec fn default_props() -> MemPoolProps {
    MemPoolProps {
        alloc_type: MemAllocationType::Pinned,
        handle_types: MemAllocationHandleType::PosixFileDescriptor,
        location: MemLocation { type_: MemLocationType::Device, id: 0 },
        max_size: 0,
    }
}

impl Default for MemPoolProps {
    fn default() -> (props: Self)
        ensures
            props == default_props(),
    {
        MemPoolProps {
            alloc_type: MemAllocationType::Pinned,
            handle_types: MemAllocationHandleType::PosixFileDescriptor,
            location: MemLocation { type_: MemLocationType::Device, id: 0 },
            max_size: 0,
        }
    }
}

impl MemPoolProps {
    /// The default properties.
    pub fn new() -> (props: Self)
        ensures
            props == default_props(),
    {
        MemPoolProps {
            alloc_type: MemAllocationType::Pinned,
            handle_types: MemAllocationHandleType::PosixFileDescriptor,
            location: MemLocation { type_: MemLocationType::Device, id: 0 },
            max_size: 0,
        }
    }

    /// These properties with another allocation type.
    pub fn with_alloc_type(self, alloc_type: MemAllocationType) -> (props: Self)
        ensures
            props == (MemPoolProps { alloc_type, ..self }),
    {
        MemPoolProps { alloc_type, ..self }
    }

    /// These properties with another kind of handle.
    pub fn with_handle_types(self, handle_types: MemAllocationHandleType) -> (props: Self)
        ensures
            props == (MemPoolProps { handle_types, ..self }),
    {
        MemPoolProps { handle_types, ..self }
    }

    /// These properties with another location.
    pub fn with_location(self, type_: MemLocationType, id: i32) -> (props: Self)
        ensures
            props == (MemPoolProps { location: MemLocation { type_, id }, ..self }),
    {
        MemPoolProps { location: MemLocation { type_, id }, ..self }
    }

    /// These properties with another maximum size.
    pub fn with_max_size(self, max_size: usize) -> (props: Self)
        ensures
            props == (MemPoolProps { max_size, ..self }),
    {
        MemPoolProps { max_size, ..self }
    }

    /// Whether `raw` is these properties in the driver's layout.
    pub open spec fn is_raw(self, raw: RawMemPoolProps) -> bool {
        &&& raw.alloc_type == self.alloc_type.raw()
        &&& raw.handle_types == self.handle_types.raw()
        &&& raw.location_type == self.location.type_.raw()
        &&& raw.location_id == self.location.id
        &&& raw.security_attributes == 0
        &&& raw.max_size == self.max_size
        &&& raw.reserved@ == Seq::new(56, |i: int| 0u8)
    }

    /// The properties in the layout that the driver reads.
    pub fn to_sys_props(&self) -> (raw: RawMemPoolProps)
        ensures
            self.is_raw(raw),
    {
        let reserved = [0u8;56];
        assert(reserved@ =~= Seq::new(56, |i: int| 0u8));
        RawMemPoolProps {
            alloc_type: self.alloc_type.to_raw(),
            handle_types: self.handle_types.to_raw(),
            location_type: self.location.type_.to_raw(),
            location_id: self.location.id,
            security_attributes: 0,
            max_size: self.max_size,
            reserved,
        }
    }
}

/// What a pool is: its handle and the properties it is known by.
pub struct PoolView {
    pub handle: usize,
    pub props: MemPoolProps,
}

/// A memory pool of the driver, owned by one holder and destroyed at most
/// once. The handle 0 names no pool.
#[derive(Debug)]
pub struct MemPool {
    handle: usize,
    props: MemPoolProps,
}

impl View for MemPool {
    type V = PoolView;

    closed spec fn view(&self) -> PoolView {
        PoolView { handle: self.handle, props: self.props }
    }
}

/// The outcome of a call that answers with a pool, the pool taken by its
/// view.
pub open spec fn pool_viewed(r: HipResult<MemPool>) -> Result<PoolView, HipError> {
    match r {
        Ok(pool) => Ok(pool@),
        Err(e) => Err(e),
    }
}

impl MemPool {
    /// The pool of a handle that the driver gave, known by the default
    /// properties.
    pub fn from_raw(handle: usize) -> (pool: Self)
        ensures
            pool@ == (PoolView { handle, props: default_props() }),
    {
        MemPool { handle, props: MemPoolProps::new() }
    }

    /// Creates a pool with the given properties. `create_fn` is called once
    /// with the properties in the driver's layout; it returns the handle
    /// and the raw code, which are translated: the pool of that handle for
    /// code 0, else the classified error and no pool.
    pub fn create<F>(props: MemPoolProps, create_fn: F) -> (r: HipResult<Self>) where
        F: FnOnce(RawMemPoolProps) -> (usize, u32),

        requires
            forall|raw: RawMemPoolProps| props.is_raw(raw) ==> call_requires(create_fn, (raw,)),
        ensures
            exists|raw: RawMemPoolProps, handle: usize, code: u32|
                props.is_raw(raw) && call_ensures(create_fn, (raw,), (handle, code))
                    && pool_viewed(r) == hip_translated(PoolView { handle, props }, code),
    {
        let raw = props.to_sys_props();
        let (handle, code) = create_fn(raw);
        let r = if code == 0 {
            Ok(MemPool { handle, props })
        } else {
            Err(HipError::new(code))
        };
        assert(props.is_raw(raw) && call_ensures(create_fn, (raw,), (handle, code))
            && pool_viewed(r) == hip_translated(PoolView { handle, props }, code));
        r
    }

    /// Whether the handle names no pool.
    pub fn is_null(&self) -> (null: bool)
        ensures
            null == (self@.handle == 0),
    {
        self.handle == 0
    }

    /// The handle of the pool, to pass to further driver calls.
    pub fn handle(&self) -> (handle: usize)
        ensures
            handle == self@.handle,
    {
        self.handle
    }

    /// The properties that the pool is known by.
    pub fn props(&self) -> (props: &MemPoolProps)
        ensures
            *props == self@.props,
    {
        &self.props
    }

    /// The handle that is given back to the driver when the pool is
    /// released: none for the handle 0.
    pub open spec fn release_call(pool: PoolView) -> Option<usize> {
        if pool.handle == 0 {
            None
        } else {
            Some(pool.handle)
        }
    }

    /// Releases the pool, which is consumed. For the handle 0 nothing is
    /// done. Otherwise `destroy_fn` is called once with the handle. A
    /// failure is not raised: its classified error is returned for the
    /// record, and `None` where there is nothing to record.
    pub fn release<F>(self, destroy_fn: F) -> (failure: Option<HipError>) where
        F: FnOnce(usize) -> u32,

        requires
            Self::release_call(self@) matches Some(handle) ==> call_requires(
                destroy_fn,
                (handle,),
            ),
        ensures
            match Self::release_call(self@) {
                None => failure is None,
                Some(handle) => exists|code: u32|
                    call_ensures(destroy_fn, (handle,), code) && failure == diagnostic(code),
            },
    {
        if self.handle == 0 {
            return None;
        }
        let code = destroy_fn(self.handle);
        let failure = teardown_diagnostic(code);
        assert(call_ensures(destroy_fn, (self.handle,), code) && failure == diagnostic(code));
        failure
    }
}

} // verus!
