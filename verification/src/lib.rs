//! A safety layer over a GPU compute driver's C interface: status decoding,
//! translation of raw call outcomes, and the ownership rules of the
//! resources that the driver hands out.
//!
//! The library makes no driver call of its own. Every operation that needs
//! one takes it as a function argument, decides whether and with what
//! arguments to call it, and translates what comes back.

pub mod hip;
pub mod hipblas;
pub mod outside;
pub mod result;
pub mod runtime;
pub mod text;
pub mod types;

pub use crate::hip::device::{
    get_device, get_device_by_pci_bus_id, get_device_count, get_device_p2p_attribute, set_device,
    synchronize, Device,
};
pub use crate::hip::device_types::{DeviceAttribute, DeviceP2PAttribute, PCIBusId, UnsafeToString};
pub use crate::hip::flags::DeviceMallocFlag;
pub use crate::hip::hip_call::hip_call;
pub use crate::hip::mem_pool::{
    MemAllocationHandleType, MemAllocationType, MemLocation, MemLocationType, MemPool,
    MemPoolProps, RawMemPoolProps,
};
pub use crate::hip::memory::{
    memory_copy, Block, CopyCall, FillCall, FillPlan, MemoryCopyKind, MemoryPointer,
};
pub use crate::hip::result::{HipError, HipResult, HipStatus};
pub use crate::hip::stream::Stream;
pub use crate::hipblas::blas_call::blas_call;
pub use crate::hipblas::gemm::{gemm, GemmCall};
pub use crate::hipblas::gemm_batched::{
    gemm_batched, BatchTable, BatchedAction, BatchedGemm, BatchedPhase, BatchedState, DriverReply,
    GemmBatchedCall,
};
pub use crate::hipblas::handle::BlasHandle;
pub use crate::hipblas::result::{BlasError, BlasResult, BlasStatus};
pub use crate::hipblas::types::{Operation, Status};
pub use crate::result::{ResultExt, StatusCode};
