//! Identifiers of the device family: bus ids and the attributes that a
//! device can be asked for.

use vstd::prelude::*;
use crate::hip::memory::invalid_value;
use crate::hip::result::{HipError, HipResult, HipStatus};
use crate::text::{all_ascii, ascii_chars, c_string_bytes, c_string_lossy, utf8_lossy};

verus! {

/// A value that holds text as the driver wrote it, read leniently.
pub trait UnsafeToString {
    /// The text that the value holds.
    spec fn text(&self) -> Seq<char>;

    fn to_string(&self) -> (s: String)
        ensures
            s@ == self.text(),
    ;
}

/// The buffer of a PCI bus id: 16 bytes that hold a C string such as
/// `0000:00:02.0`.
#[derive(Debug)]
pub struct PCIBusId(pub [i8; 16]);

impl View for PCIBusId {
    type V = Seq<i8>;

    open spec fn view(&self) -> Seq<i8> {
        self.0@
    }
}

impl PCIBusId {
    /// A buffer of 16 zero bytes.
    pub fn new() -> (id: Self)
        ensures
            id@ == Seq::new(16, |i: int| 0i8),
    {
        let id = PCIBusId([0i8;16]);
        assert(id@ =~= Seq::new(16, |i: int| 0i8));
        id
    }

    /// The buffer, for the driver to write the id into.
    pub fn as_mut_ptr(&mut self) -> (buffer: &mut [i8; 16])
        ensures
            *buffer == old(self).0,
            final(self).0 == *final(buffer),
    {
        &mut self.0
    }

    /// The length of the buffer, which is 16.
    pub fn len(&self) -> (n: i32)
        ensures
            n == 16,
            n == self@.len(),
    {
        16
    }
}

impl UnsafeToString for PCIBusId {
    open spec fn text(&self) -> Seq<char> {
        utf8_lossy(c_string_bytes(self@))
    }

    /// The id as text: the C string in the buffer, read to the end of the
    /// buffer where no zero byte ends it, with invalid bytes replaced.
    fn to_string(&self) -> (s: String)
        ensures
            all_ascii(c_string_bytes(self@)) ==> s@ == ascii_chars(c_string_bytes(self@)),
    {
        c_string_lossy(self.0.as_slice())
    }
}

/// An attribute of the link between two devices.
#[derive(Debug, Clone, Copy, PartialEq, Eq, Structural)]
pub enum DeviceP2PAttribute {
    PerformanceRank,
    AccessSupported,
    NativeAtomicSupported,
    HipArrayAccessSupported,
}

impl DeviceP2PAttribute {
    /// The raw code of an attribute.
    pub open spec fn raw(self) -> u32 {
        match self {
            DeviceP2PAttribute::PerformanceRank => 0,
            DeviceP2PAttribute::AccessSupported => 1,
            DeviceP2PAttribute::NativeAtomicSupported => 2,
            DeviceP2PAttribute::HipArrayAccessSupported => 3,
        }
    }

    /// The attribute that a raw code names, if it names one.
    pub open spec fn decode(value: u32) -> Option<DeviceP2PAttribute> {
        if value == 0 {
            Some(DeviceP2PAttribute::PerformanceRank)
        } else if value == 1 {
            Some(DeviceP2PAttribute::AccessSupported)
        } else if value == 2 {
            Some(DeviceP2PAttribute::NativeAtomicSupported)
        } else if value == 3 {
            Some(DeviceP2PAttribute::HipArrayAccessSupported)
        } else {
            None
        }
    }

    /// The raw code of an attribute.
    pub fn to_raw(self) -> (code: u32)
        ensures
            code == self.raw(),
    {
        match self {
            DeviceP2PAttribute::PerformanceRank => 0,
            DeviceP2PAttribute::AccessSupported => 1,
            DeviceP2PAttribute::NativeAtomicSupported => 2,
            DeviceP2PAttribute::HipArrayAccessSupported => 3,
        }
    }

    /// Reads an attribute from its raw code; a code that names none is
    /// rejected as `InvalidValue`.
    pub fn try_from(value: u32) -> (r: HipResult<Self>)
        ensures
            r == match Self::decode(value) {
                Some(attr) => Ok::<DeviceP2PAttribute, HipError>(attr),
                None => Err(invalid_value()),
            },
    {
        match value {
            0 => Ok(DeviceP2PAttribute::PerformanceRank),
            1 => Ok(DeviceP2PAttribute::AccessSupported),
            2 => Ok(DeviceP2PAttribute::NativeAtomicSupported),
            3 => Ok(DeviceP2PAttribute::HipArrayAccessSupported),
            _ => Err(HipError::from_status(HipStatus::InvalidValue)),
        }
    }

    /// A code is read as an attribute exactly when it is that attribute's
    /// code.
    pub proof fn lemma_decode_iff_raw(value: u32, attr: DeviceP2PAttribute)
        ensures
            Self::decode(value) == Some(attr) <==> attr.raw() == value,
    {
    }
}

impl From<DeviceP2PAttribute> for u32 {
    fn from(attr: DeviceP2PAttribute) -> (code: u32) {
        attr.to_raw()
    }
}

impl vstd::std_specs::convert::FromSpecImpl<DeviceP2PAttribute> for u32 {
    open spec fn obeys_from_spec() -> bool {
        true
    }

    open spec fn from_spec(attr: DeviceP2PAttribute) -> u32 {
        attr.raw()
    }
}

/// An attribute that a device can be asked for. The driver numbers the
/// attributes that it shares with other vendors from 0 in the order given
/// here, and its own from 10000, where three places are no longer in use.
#[derive(Debug, Clone, Copy, PartialEq, Eq, Structural)]
pub enum DeviceAttribute {
    EccEnabled,
    AccessPolicyMaxWindowSize,
    AsyncEngineCount,
    CanMapHostMemory,
    CanUseHostPointerForRegisteredMem,
    ClockRate,
    ComputeMode,
    ComputePreemptionSupported,
    ConcurrentKernels,
    ConcurrentManagedAccess,
    CooperativeLaunch,
    CooperativeMultiDeviceLaunch,
    DeviceOverlap,
    DirectManagedMemAccessFromHost,
    GlobalL1CacheSupported,
    HostNativeAtomicSupported,
    Integrated,
    IsMultiGpuBoard,
    KernelExecTimeout,
    L2CacheSize,
    LocalL1CacheSupported,
    Luid,
    LuidDeviceNodeMask,
    ComputeCapabilityMajor,
    ManagedMemory,
    MaxBlocksPerMultiProcessor,
    MaxBlockDimX,
    MaxBlockDimY,
    MaxBlockDimZ,
    MaxGridDimX,
    MaxGridDimY,
    MaxGridDimZ,
    MaxSurface1D,
    MaxSurface1DLayered,
    MaxSurface2D,
    MaxSurface2DLayered,
    MaxSurface3D,
    MaxSurfaceCubemap,
    MaxSurfaceCubemapLayered,
    MaxTexture1DWidth,
    MaxTexture1DLayered,
    MaxTexture1DLinear,
    MaxTexture1DMipmap,
    MaxTexture2DWidth,
    MaxTexture2DHeight,
    MaxTexture2DGather,
    MaxTexture2DLayered,
    MaxTexture2DLinear,
    MaxTexture2DMipmap,
    MaxTexture3DWidth,
    MaxTexture3DHeight,
    MaxTexture3DDepth,
    MaxTexture3DAlt,
    MaxTextureCubemap,
    MaxTextureCubemapLayered,
    MaxThreadsDim,
    MaxThreadsPerBlock,
    MaxThreadsPerMultiProcessor,
    MaxPitch,
    MemoryBusWidth,
    MemoryClockRate,
    ComputeCapabilityMinor,
    MultiGpuBoardGroupID,
    MultiprocessorCount,
    PageableMemoryAccess,
    PageableMemoryAccessUsesHostPageTables,
    PciBusId,
    PciDeviceId,
    PciDomainID,
    PersistingL2CacheMaxSize,
    MaxRegistersPerBlock,
    MaxRegistersPerMultiprocessor,
    ReservedSharedMemPerBlock,
    MaxSharedMemoryPerBlock,
    SharedMemPerBlockOptin,
    SharedMemPerMultiprocessor,
    SingleToDoublePrecisionPerfRatio,
    StreamPrioritiesSupported,
    SurfaceAlignment,
    TccDriver,
    TextureAlignment,
    TexturePitchAlignment,
    TotalConstantMemory,
    TotalGlobalMem,
    UnifiedAddressing,
    WarpSize,
    MemoryPoolsSupported,
    VirtualMemoryManagementSupported,
    HostRegisterSupported,
    MemoryPoolSupportedHandleTypes,
    ClockInstructionRate,
    MaxSharedMemoryPerMultiprocessor,
    HdpMemFlushCntl,
    HdpRegFlushCntl,
    CooperativeMultiDeviceUnmatchedFunc,
    CooperativeMultiDeviceUnmatchedGridDim,
    CooperativeMultiDeviceUnmatchedBlockDim,
    CooperativeMultiDeviceUnmatchedSharedMem,
    IsLargeBar,
    AsicRevision,
    CanUseStreamWaitValue,
    ImageSupport,
    PhysicalMultiProcessorCount,
    FineGrainSupport,
    WallClockRate,
}

impl DeviceAttribute {
    /// The raw code of an attribute.
    pub open spec fn raw(self) -> u32 {
        match self {
            DeviceAttribute::EccEnabled => 0,
            DeviceAttribute::AccessPolicyMaxWindowSize => 1,
            DeviceAttribute::AsyncEngineCount => 2,
            DeviceAttribute::CanMapHostMemory => 3,
            DeviceAttribute::CanUseHostPointerForRegisteredMem => 4,
            DeviceAttribute::ClockRate => 5,
            DeviceAttribute::ComputeMode => 6,
            DeviceAttribute::ComputePreemptionSupported => 7,
            DeviceAttribute::ConcurrentKernels => 8,
            DeviceAttribute::ConcurrentManagedAccess => 9,
            DeviceAttribute::CooperativeLaunch => 10,
            DeviceAttribute::CooperativeMultiDeviceLaunch => 11,
            DeviceAttribute::DeviceOverlap => 12,
            DeviceAttribute::DirectManagedMemAccessFromHost => 13,
            DeviceAttribute::GlobalL1CacheSupported => 14,
            DeviceAttribute::HostNativeAtomicSupported => 15,
            DeviceAttribute::Integrated => 16,
            DeviceAttribute::IsMultiGpuBoard => 17,
            DeviceAttribute::KernelExecTimeout => 18,
            DeviceAttribute::L2CacheSize => 19,
            DeviceAttribute::LocalL1CacheSupported => 20,
            DeviceAttribute::Luid => 21,
            DeviceAttribute::LuidDeviceNodeMask => 22,
            DeviceAttribute::ComputeCapabilityMajor => 23,
            DeviceAttribute::ManagedMemory => 24,
            DeviceAttribute::MaxBlocksPerMultiProcessor => 25,
            DeviceAttribute::MaxBlockDimX => 26,
            DeviceAttribute::MaxBlockDimY => 27,
            DeviceAttribute::MaxBlockDimZ => 28,
            DeviceAttribute::MaxGridDimX => 29,
            DeviceAttribute::MaxGridDimY => 30,
            DeviceAttribute::MaxGridDimZ => 31,
            DeviceAttribute::MaxSurface1D => 32,
            DeviceAttribute::MaxSurface1DLayered => 33,
            DeviceAttribute::MaxSurface2D => 34,
            DeviceAttribute::MaxSurface2DLayered => 35,
            DeviceAttribute::MaxSurface3D => 36,
            DeviceAttribute::MaxSurfaceCubemap => 37,
            DeviceAttribute::MaxSurfaceCubemapLayered => 38,
            DeviceAttribute::MaxTexture1DWidth => 39,
            DeviceAttribute::MaxTexture1DLayered => 40,
            DeviceAttribute::MaxTexture1DLinear => 41,
            DeviceAttribute::MaxTexture1DMipmap => 42,
            DeviceAttribute::MaxTexture2DWidth => 43,
            DeviceAttribute::MaxTexture2DHeight => 44,
            DeviceAttribute::MaxTexture2DGather => 45,
            DeviceAttribute::MaxTexture2DLayered => 46,
            DeviceAttribute::MaxTexture2DLinear => 47,
            DeviceAttribute::MaxTexture2DMipmap => 48,
            DeviceAttribute::MaxTexture3DWidth => 49,
            DeviceAttribute::MaxTexture3DHeight => 50,
            DeviceAttribute::MaxTexture3DDepth => 51,
            DeviceAttribute::MaxTexture3DAlt => 52,
            DeviceAttribute::MaxTextureCubemap => 53,
            DeviceAttribute::MaxTextureCubemapLayered => 54,
            DeviceAttribute::MaxThreadsDim => 55,
            DeviceAttribute::MaxThreadsPerBlock => 56,
            DeviceAttribute::MaxThreadsPerMultiProcessor => 57,
            DeviceAttribute::MaxPitch => 58,
            DeviceAttribute::MemoryBusWidth => 59,
            DeviceAttribute::MemoryClockRate => 60,
            DeviceAttribute::ComputeCapabilityMinor => 61,
            DeviceAttribute::MultiGpuBoardGroupID => 62,
            DeviceAttribute::MultiprocessorCount => 63,
            DeviceAttribute::PageableMemoryAccess => 64,
            DeviceAttribute::PageableMemoryAccessUsesHostPageTables => 65,
            DeviceAttribute::PciBusId => 66,
            DeviceAttribute::PciDeviceId => 67,
            DeviceAttribute::PciDomainID => 68,
            DeviceAttribute::PersistingL2CacheMaxSize => 69,
            DeviceAttribute::MaxRegistersPerBlock => 70,
            DeviceAttribute::MaxRegistersPerMultiprocessor => 71,
            DeviceAttribute::ReservedSharedMemPerBlock => 72,
            DeviceAttribute::MaxSharedMemoryPerBlock => 73,
            DeviceAttribute::SharedMemPerBlockOptin => 74,
            DeviceAttribute::SharedMemPerMultiprocessor => 75,
            DeviceAttribute::SingleToDoublePrecisionPerfRatio => 76,
            DeviceAttribute::StreamPrioritiesSupported => 77,
            DeviceAttribute::SurfaceAlignment => 78,
            DeviceAttribute::TccDriver => 79,
            DeviceAttribute::TextureAlignment => 80,
            DeviceAttribute::TexturePitchAlignment => 81,
            DeviceAttribute::TotalConstantMemory => 82,
            DeviceAttribute::TotalGlobalMem => 83,
            DeviceAttribute::UnifiedAddressing => 84,
            DeviceAttribute::WarpSize => 85,
            DeviceAttribute::MemoryPoolsSupported => 86,
            DeviceAttribute::VirtualMemoryManagementSupported => 87,
            DeviceAttribute::HostRegisterSupported => 88,
            DeviceAttribute::MemoryPoolSupportedHandleTypes => 89,
            DeviceAttribute::ClockInstructionRate => 10000,
            DeviceAttribute::MaxSharedMemoryPerMultiprocessor => 10002,
            DeviceAttribute::HdpMemFlushCntl => 10005,
            DeviceAttribute::HdpRegFlushCntl => 10006,
            DeviceAttribute::CooperativeMultiDeviceUnmatchedFunc => 10007,
            DeviceAttribute::CooperativeMultiDeviceUnmatchedGridDim => 10008,
            DeviceAttribute::CooperativeMultiDeviceUnmatchedBlockDim => 10009,
            DeviceAttribute::CooperativeMultiDeviceUnmatchedSharedMem => 10010,
            DeviceAttribute::IsLargeBar => 10011,
            DeviceAttribute::AsicRevision => 10012,
            DeviceAttribute::CanUseStreamWaitValue => 10013,
            DeviceAttribute::ImageSupport => 10014,
            DeviceAttribute::PhysicalMultiProcessorCount => 10015,
            DeviceAttribute::FineGrainSupport => 10016,
            DeviceAttribute::WallClockRate => 10017,
        }
    }

    /// The attribute that a raw code names, if it names one.
    pub open spec fn decode(value: u32) -> Option<DeviceAttribute> {
        if value == 0 {
            Some(DeviceAttribute::EccEnabled)
        } else if value == 1 {
            Some(DeviceAttribute::AccessPolicyMaxWindowSize)
        } else if value == 2 {
            Some(DeviceAttribute::AsyncEngineCount)
        } else if value == 3 {
            Some(DeviceAttribute::CanMapHostMemory)
        } else if value == 4 {
            Some(DeviceAttribute::CanUseHostPointerForRegisteredMem)
        } else if value == 5 {
            Some(DeviceAttribute::ClockRate)
        } else if value == 6 {
            Some(DeviceAttribute::ComputeMode)
        } else if value == 7 {
            Some(DeviceAttribute::ComputePreemptionSupported)
        } else if value == 8 {
            Some(DeviceAttribute::ConcurrentKernels)
        } else if value == 9 {
            Some(DeviceAttribute::ConcurrentManagedAccess)
        } else if value == 10 {
            Some(DeviceAttribute::CooperativeLaunch)
        } else if value == 11 {
            Some(DeviceAttribute::CooperativeMultiDeviceLaunch)
        } else if value == 12 {
            Some(DeviceAttribute::DeviceOverlap)
        } else if value == 13 {
            Some(DeviceAttribute::DirectManagedMemAccessFromHost)
        } else if value == 14 {
            Some(DeviceAttribute::GlobalL1CacheSupported)
        } else if value == 15 {
            Some(DeviceAttribute::HostNativeAtomicSupported)
        } else if value == 16 {
            Some(DeviceAttribute::Integrated)
        } else if value == 17 {
            Some(DeviceAttribute::IsMultiGpuBoard)
        } else if value == 18 {
            Some(DeviceAttribute::KernelExecTimeout)
        } else if value == 19 {
            Some(DeviceAttribute::L2CacheSize)
        } else if value == 20 {
            Some(DeviceAttribute::LocalL1CacheSupported)
        } else if value == 21 {
            Some(DeviceAttribute::Luid)
        } else if value == 22 {
            Some(DeviceAttribute::LuidDeviceNodeMask)
        } else if value == 23 {
            Some(DeviceAttribute::ComputeCapabilityMajor)
        } else if value == 24 {
            Some(DeviceAttribute::ManagedMemory)
        } else if value == 25 {
            Some(DeviceAttribute::MaxBlocksPerMultiProcessor)
        } else if value == 26 {
            Some(DeviceAttribute::MaxBlockDimX)
        } else if value == 27 {
            Some(DeviceAttribute::MaxBlockDimY)
        } else if value == 28 {
            Some(DeviceAttribute::MaxBlockDimZ)
        } else if value == 29 {
            Some(DeviceAttribute::MaxGridDimX)
        } else if value == 30 {
            Some(DeviceAttribute::MaxGridDimY)
        } else if value == 31 {
            Some(DeviceAttribute::MaxGridDimZ)
        } else if value == 32 {
            Some(DeviceAttribute::MaxSurface1D)
        } else if value == 33 {
            Some(DeviceAttribute::MaxSurface1DLayered)
        } else if value == 34 {
            Some(DeviceAttribute::MaxSurface2D)
        } else if value == 35 {
            Some(DeviceAttribute::MaxSurface2DLayered)
        } else if value == 36 {
            Some(DeviceAttribute::MaxSurface3D)
        } else if value == 37 {
            Some(DeviceAttribute::MaxSurfaceCubemap)
        } else if value == 38 {
            Some(DeviceAttribute::MaxSurfaceCubemapLayered)
        } else if value == 39 {
            Some(DeviceAttribute::MaxTexture1DWidth)
        } else if value == 40 {
            Some(DeviceAttribute::MaxTexture1DLayered)
        } else if value == 41 {
            Some(DeviceAttribute::MaxTexture1DLinear)
        } else if value == 42 {
            Some(DeviceAttribute::MaxTexture1DMipmap)
        } else if value == 43 {
            Some(DeviceAttribute::MaxTexture2DWidth)
        } else if value == 44 {
            Some(DeviceAttribute::MaxTexture2DHeight)
        } else if value == 45 {
            Some(DeviceAttribute::MaxTexture2DGather)
        } else if value == 46 {
            Some(DeviceAttribute::MaxTexture2DLayered)
        } else if value == 47 {
            Some(DeviceAttribute::MaxTexture2DLinear)
        } else if value == 48 {
            Some(DeviceAttribute::MaxTexture2DMipmap)
        } else if value == 49 {
            Some(DeviceAttribute::MaxTexture3DWidth)
        } else if value == 50 {
            Some(DeviceAttribute::MaxTexture3DHeight)
        } else if value == 51 {
            Some(DeviceAttribute::MaxTexture3DDepth)
        } else if value == 52 {
            Some(DeviceAttribute::MaxTexture3DAlt)
        } else if value == 53 {
            Some(DeviceAttribute::MaxTextureCubemap)
        } else if value == 54 {
            Some(DeviceAttribute::MaxTextureCubemapLayered)
        } else if value == 55 {
            Some(DeviceAttribute::MaxThreadsDim)
        } else if value == 56 {
            Some(DeviceAttribute::MaxThreadsPerBlock)
        } else if value == 57 {
            Some(DeviceAttribute::MaxThreadsPerMultiProcessor)
        } else if value == 58 {
            Some(DeviceAttribute::MaxPitch)
        } else if value == 59 {
            Some(DeviceAttribute::MemoryBusWidth)
        } else if value == 60 {
            Some(DeviceAttribute::MemoryClockRate)
        } else if value == 61 {
            Some(DeviceAttribute::ComputeCapabilityMinor)
        } else if value == 62 {
            Some(DeviceAttribute::MultiGpuBoardGroupID)
        } else if value == 63 {
            Some(DeviceAttribute::MultiprocessorCount)
        } else if value == 64 {
            Some(DeviceAttribute::PageableMemoryAccess)
        } else if value == 65 {
            Some(DeviceAttribute::PageableMemoryAccessUsesHostPageTables)
        } else if value == 66 {
            Some(DeviceAttribute::PciBusId)
        } else if value == 67 {
            Some(DeviceAttribute::PciDeviceId)
        } else if value == 68 {
            Some(DeviceAttribute::PciDomainID)
        } else if value == 69 {
            Some(DeviceAttribute::PersistingL2CacheMaxSize)
        } else if value == 70 {
            Some(DeviceAttribute::MaxRegistersPerBlock)
        } else if value == 71 {
            Some(DeviceAttribute::MaxRegistersPerMultiprocessor)
        } else if value == 72 {
            Some(DeviceAttribute::ReservedSharedMemPerBlock)
        } else if value == 73 {
            Some(DeviceAttribute::MaxSharedMemoryPerBlock)
        } else if value == 74 {
            Some(DeviceAttribute::SharedMemPerBlockOptin)
        } else if value == 75 {
            Some(DeviceAttribute::SharedMemPerMultiprocessor)
        } else if value == 76 {
            Some(DeviceAttribute::SingleToDoublePrecisionPerfRatio)
        } else if value == 77 {
            Some(DeviceAttribute::StreamPrioritiesSupported)
        } else if value == 78 {
            Some(DeviceAttribute::SurfaceAlignment)
        } else if value == 79 {
            Some(DeviceAttribute::TccDriver)
        } else if value == 80 {
            Some(DeviceAttribute::TextureAlignment)
        } else if value == 81 {
            Some(DeviceAttribute::TexturePitchAlignment)
        } else if value == 82 {
            Some(DeviceAttribute::TotalConstantMemory)
        } else if value == 83 {
            Some(DeviceAttribute::TotalGlobalMem)
        } else if value == 84 {
            Some(DeviceAttribute::UnifiedAddressing)
        } else if value == 85 {
            Some(DeviceAttribute::WarpSize)
        } else if value == 86 {
            Some(DeviceAttribute::MemoryPoolsSupported)
        } else if value == 87 {
            Some(DeviceAttribute::VirtualMemoryManagementSupported)
        } else if value == 88 {
            Some(DeviceAttribute::HostRegisterSupported)
        } else if value == 89 {
            Some(DeviceAttribute::MemoryPoolSupportedHandleTypes)
        } else if value == 10000 {
            Some(DeviceAttribute::ClockInstructionRate)
        } else if value == 10002 {
            Some(DeviceAttribute::MaxSharedMemoryPerMultiprocessor)
        } else if value == 10005 {
            Some(DeviceAttribute::HdpMemFlushCntl)
        } else if value == 10006 {
            Some(DeviceAttribute::HdpRegFlushCntl)
        } else if value == 10007 {
            Some(DeviceAttribute::CooperativeMultiDeviceUnmatchedFunc)
        } else if value == 10008 {
            Some(DeviceAttribute::CooperativeMultiDeviceUnmatchedGridDim)
        } else if value == 10009 {
            Some(DeviceAttribute::CooperativeMultiDeviceUnmatchedBlockDim)
        } else if value == 10010 {
            Some(DeviceAttribute::CooperativeMultiDeviceUnmatchedSharedMem)
        } else if value == 10011 {
            Some(DeviceAttribute::IsLargeBar)
        } else if value == 10012 {
            Some(DeviceAttribute::AsicRevision)
        } else if value == 10013 {
            Some(DeviceAttribute::CanUseStreamWaitValue)
        } else if value == 10014 {
            Some(DeviceAttribute::ImageSupport)
        } else if value == 10015 {
            Some(DeviceAttribute::PhysicalMultiProcessorCount)
        } else if value == 10016 {
            Some(DeviceAttribute::FineGrainSupport)
        } else if value == 10017 {
            Some(DeviceAttribute::WallClockRate)
        } else {
            None
        }
    }

    /// The raw code of an attribute.
    pub fn to_raw(self) -> (code: u32)
        ensures
            code == self.raw(),
    {
        match self {
            DeviceAttribute::EccEnabled => 0,
            DeviceAttribute::AccessPolicyMaxWindowSize => 1,
            DeviceAttribute::AsyncEngineCount => 2,
            DeviceAttribute::CanMapHostMemory => 3,
            DeviceAttribute::CanUseHostPointerForRegisteredMem => 4,
            DeviceAttribute::ClockRate => 5,
            DeviceAttribute::ComputeMode => 6,
            DeviceAttribute::ComputePreemptionSupported => 7,
            DeviceAttribute::ConcurrentKernels => 8,
            DeviceAttribute::ConcurrentManagedAccess => 9,
            DeviceAttribute::CooperativeLaunch => 10,
            DeviceAttribute::CooperativeMultiDeviceLaunch => 11,
            DeviceAttribute::DeviceOverlap => 12,
            DeviceAttribute::DirectManagedMemAccessFromHost => 13,
            DeviceAttribute::GlobalL1CacheSupported => 14,
            DeviceAttribute::HostNativeAtomicSupported => 15,
            DeviceAttribute::Integrated => 16,
            DeviceAttribute::IsMultiGpuBoard => 17,
            DeviceAttribute::KernelExecTimeout => 18,
            DeviceAttribute::L2CacheSize => 19,
            DeviceAttribute::LocalL1CacheSupported => 20,
            DeviceAttribute::Luid => 21,
            DeviceAttribute::LuidDeviceNodeMask => 22,
            DeviceAttribute::ComputeCapabilityMajor => 23,
            DeviceAttribute::ManagedMemory => 24,
            DeviceAttribute::MaxBlocksPerMultiProcessor => 25,
            DeviceAttribute::MaxBlockDimX => 26,
            DeviceAttribute::MaxBlockDimY => 27,
            DeviceAttribute::MaxBlockDimZ => 28,
            DeviceAttribute::MaxGridDimX => 29,
            DeviceAttribute::MaxGridDimY => 30,
            DeviceAttribute::MaxGridDimZ => 31,
            DeviceAttribute::MaxSurface1D => 32,
            DeviceAttribute::MaxSurface1DLayered => 33,
            DeviceAttribute::MaxSurface2D => 34,
            DeviceAttribute::MaxSurface2DLayered => 35,
            DeviceAttribute::MaxSurface3D => 36,
            DeviceAttribute::MaxSurfaceCubemap => 37,
            DeviceAttribute::MaxSurfaceCubemapLayered => 38,
            DeviceAttribute::MaxTexture1DWidth => 39,
            DeviceAttribute::MaxTexture1DLayered => 40,
            DeviceAttribute::MaxTexture1DLinear => 41,
            DeviceAttribute::MaxTexture1DMipmap => 42,
            DeviceAttribute::MaxTexture2DWidth => 43,
            DeviceAttribute::MaxTexture2DHeight => 44,
            DeviceAttribute::MaxTexture2DGather => 45,
            DeviceAttribute::MaxTexture2DLayered => 46,
            DeviceAttribute::MaxTexture2DLinear => 47,
            DeviceAttribute::MaxTexture2DMipmap => 48,
            DeviceAttribute::MaxTexture3DWidth => 49,
            DeviceAttribute::MaxTexture3DHeight => 50,
            DeviceAttribute::MaxTexture3DDepth => 51,
            DeviceAttribute::MaxTexture3DAlt => 52,
            DeviceAttribute::MaxTextureCubemap => 53,
            DeviceAttribute::MaxTextureCubemapLayered => 54,
            DeviceAttribute::MaxThreadsDim => 55,
            DeviceAttribute::MaxThreadsPerBlock => 56,
            DeviceAttribute::MaxThreadsPerMultiProcessor => 57,
            DeviceAttribute::MaxPitch => 58,
            DeviceAttribute::MemoryBusWidth => 59,
            DeviceAttribute::MemoryClockRate => 60,
            DeviceAttribute::ComputeCapabilityMinor => 61,
            DeviceAttribute::MultiGpuBoardGroupID => 62,
            DeviceAttribute::MultiprocessorCount => 63,
            DeviceAttribute::PageableMemoryAccess => 64,
            DeviceAttribute::PageableMemoryAccessUsesHostPageTables => 65,
            DeviceAttribute::PciBusId => 66,
            DeviceAttribute::PciDeviceId => 67,
            DeviceAttribute::PciDomainID => 68,
            DeviceAttribute::PersistingL2CacheMaxSize => 69,
            DeviceAttribute::MaxRegistersPerBlock => 70,
            DeviceAttribute::MaxRegistersPerMultiprocessor => 71,
            DeviceAttribute::ReservedSharedMemPerBlock => 72,
            DeviceAttribute::MaxSharedMemoryPerBlock => 73,
            DeviceAttribute::SharedMemPerBlockOptin => 74,
            DeviceAttribute::SharedMemPerMultiprocessor => 75,
            DeviceAttribute::SingleToDoublePrecisionPerfRatio => 76,
            DeviceAttribute::StreamPrioritiesSupported => 77,
            DeviceAttribute::SurfaceAlignment => 78,
            DeviceAttribute::TccDriver => 79,
            DeviceAttribute::TextureAlignment => 80,
            DeviceAttribute::TexturePitchAlignment => 81,
            DeviceAttribute::TotalConstantMemory => 82,
            DeviceAttribute::TotalGlobalMem => 83,
            DeviceAttribute::UnifiedAddressing => 84,
            DeviceAttribute::WarpSize => 85,
            DeviceAttribute::MemoryPoolsSupported => 86,
            DeviceAttribute::VirtualMemoryManagementSupported => 87,
            DeviceAttribute::HostRegisterSupported => 88,
            DeviceAttribute::MemoryPoolSupportedHandleTypes => 89,
            DeviceAttribute::ClockInstructionRate => 10000,
            DeviceAttribute::MaxSharedMemoryPerMultiprocessor => 10002,
            DeviceAttribute::HdpMemFlushCntl => 10005,
            DeviceAttribute::HdpRegFlushCntl => 10006,
            DeviceAttribute::CooperativeMultiDeviceUnmatchedFunc => 10007,
            DeviceAttribute::CooperativeMultiDeviceUnmatchedGridDim => 10008,
            DeviceAttribute::CooperativeMultiDeviceUnmatchedBlockDim => 10009,
            DeviceAttribute::CooperativeMultiDeviceUnmatchedSharedMem => 10010,
            DeviceAttribute::IsLargeBar => 10011,
            DeviceAttribute::AsicRevision => 10012,
            DeviceAttribute::CanUseStreamWaitValue => 10013,
            DeviceAttribute::ImageSupport => 10014,
            DeviceAttribute::PhysicalMultiProcessorCount => 10015,
            DeviceAttribute::FineGrainSupport => 10016,
            DeviceAttribute::WallClockRate => 10017,
        }
    }

    /// Reads an attribute from its raw code; a code that names none is
    /// rejected as `InvalidValue`.
    pub fn try_from(value: u32) -> (r: HipResult<Self>)
        ensures
            r == match Self::decode(value) {
                Some(attr) => Ok::<DeviceAttribute, HipError>(attr),
                None => Err(invalid_value()),
            },
    {
        match value {
            0 => Ok(DeviceAttribute::EccEnabled),
            1 => Ok(DeviceAttribute::AccessPolicyMaxWindowSize),
            2 => Ok(DeviceAttribute::AsyncEngineCount),
            3 => Ok(DeviceAttribute::CanMapHostMemory),
            4 => Ok(DeviceAttribute::CanUseHostPointerForRegisteredMem),
            5 => Ok(DeviceAttribute::ClockRate),
            6 => Ok(DeviceAttribute::ComputeMode),
            7 => Ok(DeviceAttribute::ComputePreemptionSupported),
            8 => Ok(DeviceAttribute::ConcurrentKernels),
            9 => Ok(DeviceAttribute::ConcurrentManagedAccess),
            10 => Ok(DeviceAttribute::CooperativeLaunch),
            11 => Ok(DeviceAttribute::CooperativeMultiDeviceLaunch),
            12 => Ok(DeviceAttribute::DeviceOverlap),
            13 => Ok(DeviceAttribute::DirectManagedMemAccessFromHost),
            14 => Ok(DeviceAttribute::GlobalL1CacheSupported),
            15 => Ok(DeviceAttribute::HostNativeAtomicSupported),
            16 => Ok(DeviceAttribute::Integrated),
            17 => Ok(DeviceAttribute::IsMultiGpuBoard),
            18 => Ok(DeviceAttribute::KernelExecTimeout),
            19 => Ok(DeviceAttribute::L2CacheSize),
            20 => Ok(DeviceAttribute::LocalL1CacheSupported),
            21 => Ok(DeviceAttribute::Luid),
            22 => Ok(DeviceAttribute::LuidDeviceNodeMask),
            23 => Ok(DeviceAttribute::ComputeCapabilityMajor),
            24 => Ok(DeviceAttribute::ManagedMemory),
            25 => Ok(DeviceAttribute::MaxBlocksPerMultiProcessor),
            26 => Ok(DeviceAttribute::MaxBlockDimX),
            27 => Ok(DeviceAttribute::MaxBlockDimY),
            28 => Ok(DeviceAttribute::MaxBlockDimZ),
            29 => Ok(DeviceAttribute::MaxGridDimX),
            30 => Ok(DeviceAttribute::MaxGridDimY),
            31 => Ok(DeviceAttribute::MaxGridDimZ),
            32 => Ok(DeviceAttribute::MaxSurface1D),
            33 => Ok(DeviceAttribute::MaxSurface1DLayered),
            34 => Ok(DeviceAttribute::MaxSurface2D),
            35 => Ok(DeviceAttribute::MaxSurface2DLayered),
            36 => Ok(DeviceAttribute::MaxSurface3D),
            37 => Ok(DeviceAttribute::MaxSurfaceCubemap),
            38 => Ok(DeviceAttribute::MaxSurfaceCubemapLayered),
            39 => Ok(DeviceAttribute::MaxTexture1DWidth),
            40 => Ok(DeviceAttribute::MaxTexture1DLayered),
            41 => Ok(DeviceAttribute::MaxTexture1DLinear),
            42 => Ok(DeviceAttribute::MaxTexture1DMipmap),
            43 => Ok(DeviceAttribute::MaxTexture2DWidth),
            44 => Ok(DeviceAttribute::MaxTexture2DHeight),
            45 => Ok(DeviceAttribute::MaxTexture2DGather),
            46 => Ok(DeviceAttribute::MaxTexture2DLayered),
            47 => Ok(DeviceAttribute::MaxTexture2DLinear),
            48 => Ok(DeviceAttribute::MaxTexture2DMipmap),
            49 => Ok(DeviceAttribute::MaxTexture3DWidth),
            50 => Ok(DeviceAttribute::MaxTexture3DHeight),
            51 => Ok(DeviceAttribute::MaxTexture3DDepth),
            52 => Ok(DeviceAttribute::MaxTexture3DAlt),
            53 => Ok(DeviceAttribute::MaxTextureCubemap),
            54 => Ok(DeviceAttribute::MaxTextureCubemapLayered),
            55 => Ok(DeviceAttribute::MaxThreadsDim),
            56 => Ok(DeviceAttribute::MaxThreadsPerBlock),
            57 => Ok(DeviceAttribute::MaxThreadsPerMultiProcessor),
            58 => Ok(DeviceAttribute::MaxPitch),
            59 => Ok(DeviceAttribute::MemoryBusWidth),
            60 => Ok(DeviceAttribute::MemoryClockRate),
            61 => Ok(DeviceAttribute::ComputeCapabilityMinor),
            62 => Ok(DeviceAttribute::MultiGpuBoardGroupID),
            63 => Ok(DeviceAttribute::MultiprocessorCount),
            64 => Ok(DeviceAttribute::PageableMemoryAccess),
            65 => Ok(DeviceAttribute::PageableMemoryAccessUsesHostPageTables),
            66 => Ok(DeviceAttribute::PciBusId),
            67 => Ok(DeviceAttribute::PciDeviceId),
            68 => Ok(DeviceAttribute::PciDomainID),
            69 => Ok(DeviceAttribute::PersistingL2CacheMaxSize),
            70 => Ok(DeviceAttribute::MaxRegistersPerBlock),
            71 => Ok(DeviceAttribute::MaxRegistersPerMultiprocessor),
            72 => Ok(DeviceAttribute::ReservedSharedMemPerBlock),
            73 => Ok(DeviceAttribute::MaxSharedMemoryPerBlock),
            74 => Ok(DeviceAttribute::SharedMemPerBlockOptin),
            75 => Ok(DeviceAttribute::SharedMemPerMultiprocessor),
            76 => Ok(DeviceAttribute::SingleToDoublePrecisionPerfRatio),
            77 => Ok(DeviceAttribute::StreamPrioritiesSupported),
            78 => Ok(DeviceAttribute::SurfaceAlignment),
            79 => Ok(DeviceAttribute::TccDriver),
            80 => Ok(DeviceAttribute::TextureAlignment),
            81 => Ok(DeviceAttribute::TexturePitchAlignment),
            82 => Ok(DeviceAttribute::TotalConstantMemory),
            83 => Ok(DeviceAttribute::TotalGlobalMem),
            84 => Ok(DeviceAttribute::UnifiedAddressing),
            85 => Ok(DeviceAttribute::WarpSize),
            86 => Ok(DeviceAttribute::MemoryPoolsSupported),
            87 => Ok(DeviceAttribute::VirtualMemoryManagementSupported),
            88 => Ok(DeviceAttribute::HostRegisterSupported),
            89 => Ok(DeviceAttribute::MemoryPoolSupportedHandleTypes),
            10000 => Ok(DeviceAttribute::ClockInstructionRate),
            10002 => Ok(DeviceAttribute::MaxSharedMemoryPerMultiprocessor),
            10005 => Ok(DeviceAttribute::HdpMemFlushCntl),
            10006 => Ok(DeviceAttribute::HdpRegFlushCntl),
            10007 => Ok(DeviceAttribute::CooperativeMultiDeviceUnmatchedFunc),
            10008 => Ok(DeviceAttribute::CooperativeMultiDeviceUnmatchedGridDim),
            10009 => Ok(DeviceAttribute::CooperativeMultiDeviceUnmatchedBlockDim),
            10010 => Ok(DeviceAttribute::CooperativeMultiDeviceUnmatchedSharedMem),
            10011 => Ok(DeviceAttribute::IsLargeBar),
            10012 => Ok(DeviceAttribute::AsicRevision),
            10013 => Ok(DeviceAttribute::CanUseStreamWaitValue),
            10014 => Ok(DeviceAttribute::ImageSupport),
            10015 => Ok(DeviceAttribute::PhysicalMultiProcessorCount),
            10016 => Ok(DeviceAttribute::FineGrainSupport),
            10017 => Ok(DeviceAttribute::WallClockRate),
            _ => Err(HipError::from_status(HipStatus::InvalidValue)),
        }
    }

    /// A code is read as an attribute exactly when it is that attribute's
    /// code: no two attributes share a code.
    pub proof fn lemma_decode_iff_raw(value: u32, attr: DeviceAttribute)
        ensures
            Self::decode(value) == Some(attr) <==> attr.raw() == value,
    {
    }
}

impl From<DeviceAttribute> for u32 {
    fn from(attr: DeviceAttribute) -> (code: u32) {
        attr.to_raw()
    }
}

impl vstd::std_specs::convert::FromSpecImpl<DeviceAttribute> for u32 {
    open spec fn obeys_from_spec() -> bool {
        true
    }

    open spec fn from_spec(attr: DeviceAttribute) -> u32 {
        attr.raw()
    }
}

} // verus!
