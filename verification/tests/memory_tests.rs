use hip_rs::hip::memory::FillPlan;
use hip_rs::{
    memory_copy, CopyCall, DeviceMallocFlag, FillCall, HipError, HipStatus, MemAllocationHandleType,
    MemAllocationType, MemLocationType, MemPool, MemPoolProps, MemoryCopyKind, MemoryPointer,
    Stream,
};
use std::cell::RefCell;

// A stand-in for the driver. It hands out addresses, keeps the bytes of
// each live block, refuses what the driver refuses, and counts its calls.
struct Block {
    address: usize,
    bytes: Vec<u8>,
    len: usize,
}

struct State {
    next: usize,
    live: Vec<Block>,
    calls: usize,
}

struct FakeDriver {
    state: RefCell<State>,
}

const LIMIT: usize = 1 << 34;

impl FakeDriver {
    fn new() -> Self {
        FakeDriver {
            state: RefCell::new(State {
                next: 0x1000,
                live: Vec::new(),
                calls: 0,
            }),
        }
    }

    fn calls(&self) -> usize {
        self.state.borrow().calls
    }

    fn live(&self) -> usize {
        self.state.borrow().live.len()
    }

    fn malloc(&self, bytes: usize) -> (usize, u32) {
        let mut s = self.state.borrow_mut();
        s.calls += 1;
        if bytes > LIMIT {
            return (0, 2);
        }
        let address = s.next;
        s.next += bytes.max(1) + 0x100;
        s.live.push(Block {
            address,
            bytes: Vec::new(),
            len: bytes,
        });
        (address, 0)
    }

    fn malloc_with_flags(&self, bytes: usize, flags: u32) -> (usize, u32) {
        if flags > 4 {
            self.state.borrow_mut().calls += 1;
            return (0, 1);
        }
        self.malloc(bytes)
    }

    fn malloc_async(&self, bytes: usize, stream: usize) -> (usize, u32) {
        if stream == 0 {
            self.state.borrow_mut().calls += 1;
            return (0, 1);
        }
        self.malloc(bytes)
    }

    fn free(&self, address: usize) -> u32 {
        let mut s = self.state.borrow_mut();
        s.calls += 1;
        match s.live.iter().position(|b| b.address == address) {
            Some(i) => {
                s.live.remove(i);
                0
            }
            None => 1,
        }
    }

    fn memset(&self, call: FillCall) -> u32 {
        let mut s = self.state.borrow_mut();
        s.calls += 1;
        match s.live.iter_mut().find(|b| b.address == call.address) {
            Some(b) if call.bytes <= b.len => {
                if b.bytes.len() < b.len {
                    b.bytes.resize(b.len, 0xAA);
                }
                for x in b.bytes.iter_mut().take(call.bytes) {
                    *x = call.value as u8;
                }
                0
            }
            _ => 1,
        }
    }

    fn memcpy(&self, call: CopyCall) -> u32 {
        let mut s = self.state.borrow_mut();
        s.calls += 1;
        let data = match s.live.iter().find(|b| b.address == call.src) {
            Some(b) if call.bytes <= b.len => {
                let mut d = b.bytes.clone();
                d.resize(b.len, 0xAA);
                d.truncate(call.bytes);
                d
            }
            _ => return 1,
        };
        match s.live.iter_mut().find(|b| b.address == call.dst) {
            Some(b) if call.bytes <= b.len => {
                if b.bytes.len() < b.len {
                    b.bytes.resize(b.len, 0xAA);
                }
                b.bytes[..call.bytes].copy_from_slice(&data);
                0
            }
            _ => 1,
        }
    }

    fn read(&self, address: usize) -> Vec<u8> {
        let s = self.state.borrow();
        let b = s.live.iter().find(|b| b.address == address).unwrap();
        let mut d = b.bytes.clone();
        d.resize(b.len, 0xAA);
        d
    }

    fn stream_create(&self) -> (usize, u32) {
        let mut s = self.state.borrow_mut();
        s.calls += 1;
        let handle = s.next;
        s.next += 0x100;
        (handle, 0)
    }

    fn pool_create(&self, alloc_type: u32) -> (usize, u32) {
        let mut s = self.state.borrow_mut();
        s.calls += 1;
        if alloc_type != 1 {
            return (0, 1);
        }
        let handle = s.next;
        s.next += 0x100;
        (handle, 0)
    }
}

fn invalid_value() -> HipError {
    HipError {
        status: HipStatus::InvalidValue,
        code: 1,
    }
}

#[test]
fn test_mempool_props_default() {
    let props = MemPoolProps::default();
    assert_eq!(props.alloc_type.to_raw(), MemAllocationType::Pinned.to_raw());
    assert_eq!(
        props.handle_types.to_raw(),
        MemAllocationHandleType::PosixFileDescriptor.to_raw()
    );
    assert_eq!(props.location.type_, MemLocationType::Device);
    assert_eq!(props.location.id, 0);
    assert_eq!(props.max_size, 0);
}

#[test]
fn test_mempool_props_builder() {
    let props = MemPoolProps::new();

    assert_eq!(props.alloc_type.to_raw(), MemAllocationType::Pinned.to_raw());
    assert_eq!(
        props.handle_types.to_raw(),
        MemAllocationHandleType::PosixFileDescriptor.to_raw()
    );
    assert_eq!(props.location.type_, MemLocationType::Device);
    assert_eq!(props.location.id, 0);
    assert_eq!(props.max_size, 0);
}

#[test]
fn test_mempool_create() {
    let driver = FakeDriver::new();
    // Create memory pool properties with explicit device location
    let props = MemPoolProps::new()
        .with_alloc_type(MemAllocationType::Pinned)
        .with_handle_types(MemAllocationHandleType::PosixFileDescriptor)
        .with_location(MemLocationType::Device, 0)
        .with_max_size(0);

    // Convert to sys props and print
    let sys_props = props.to_sys_props();
    println!("Raw MemPoolProps:");
    println!("  allocType: {}", sys_props.alloc_type);
    println!("  handleTypes: {}", sys_props.handle_types);
    println!("  location.type: {}", sys_props.location_type);
    println!("  location.id: {}", sys_props.location_id);
    println!("  maxSize: {}", sys_props.max_size);
    println!(
        "  win32SecurityAttributes: {:?}",
        sys_props.security_attributes
    );
    println!("  reserved: {:?}", sys_props.reserved);

    let result = MemPool::create(props, |raw| driver.pool_create(raw.alloc_type));
    assert!(
        result.is_ok(),
        "Failed to create memory pool: {:?}",
        result.unwrap_err()
    );

    let pool = result.unwrap();
    assert!(!pool.is_null());
}

#[test]
fn test_async_alloc() {
    let driver = FakeDriver::new();
    let stream = Stream::create(|| driver.stream_create()).unwrap();

    let size = 1024;
    let result = MemoryPointer::<u32>::alloc_async(size, &stream, |bytes, handle| {
        driver.malloc_async(bytes, handle)
    });
    assert!(result.is_ok());

    let ptr = result.unwrap();
    assert!(!ptr.is_null());
    assert_eq!(ptr.size(), size);
}

fn check_memset() {
    let driver = FakeDriver::new();
    let size = 1024;
    let ptr = MemoryPointer::<u8>::allocate(size, |bytes| driver.malloc(bytes)).unwrap();

    // Test setting memory with byte value
    let result = ptr.memset(0xFF, size, |call| driver.memset(call)); // Set all bytes to 255
    assert!(result.is_ok());
    assert_eq!(driver.read(ptr.as_pointer()), vec![0xFFu8; 1024]);
}

fn check_new_zero_size() {
    let driver = FakeDriver::new();
    let result = MemoryPointer::<u8>::allocate(0, |bytes| driver.malloc(bytes)).unwrap();
    assert!(result.is_null());
    assert_eq!(result.size(), 0);
}

fn check_new_valid_size() {
    let driver = FakeDriver::new();
    let size = 1024;
    let result = MemoryPointer::<u8>::allocate(size, |bytes| driver.malloc(bytes)).unwrap();
    assert!(!result.is_null());
    assert_eq!(result.size(), size);
}

fn check_new_different_types() {
    let driver = FakeDriver::new();
    // Test with different sized types
    let result = MemoryPointer::<u32>::allocate(100, |bytes| driver.malloc(bytes)).unwrap();
    assert!(!result.is_null());

    let result = MemoryPointer::<f64>::allocate(100, |bytes| driver.malloc(bytes)).unwrap();
    assert!(!result.is_null());
}

fn check_large_allocation() {
    let driver = FakeDriver::new();
    let mb = 1024 * 1024;
    let size = 3000 * mb;
    println!("Attempting to allocate {} bytes", size);
    let result = MemoryPointer::<u8>::allocate(size, |bytes| driver.malloc(bytes));
    assert!(!result.unwrap().is_null());
}

fn check_alloc_with_flag_success() {
    let driver = FakeDriver::new();
    let size = 1024;
    let result = MemoryPointer::<u8>::alloc_with_flag(
        size,
        DeviceMallocFlag::default_class(),
        |bytes, flags| driver.malloc_with_flags(bytes, flags),
    );
    assert!(result.is_ok());
    let ptr = result.unwrap();
    assert!(!ptr.is_null());
}

fn check_alloc_with_flag_zero_size() {
    let driver = FakeDriver::new();
    let result = MemoryPointer::<u8>::alloc_with_flag(
        0,
        DeviceMallocFlag::default_class(),
        |bytes, flags| driver.malloc_with_flags(bytes, flags),
    );
    assert!(result.is_ok());
    let ptr = result.unwrap();
    assert!(ptr.is_null());
}

fn check_device_to_device_copy() {
    let driver = FakeDriver::new();
    // Allocate source memory and initialize with test pattern
    let src_size = 1024;
    let src_mem = MemoryPointer::<u32>::allocate(src_size, |bytes| driver.malloc(bytes)).unwrap();

    // Allocate destination memory
    let dst_mem = MemoryPointer::<u32>::allocate(src_size, |bytes| driver.malloc(bytes)).unwrap();

    // Copy data from source to destination
    let result = memory_copy(
        dst_mem.as_pointer(),
        src_mem.as_pointer(),
        src_size * std::mem::size_of::<u32>(),
        MemoryCopyKind::DeviceToDevice,
        |call| driver.memcpy(call),
    );
    assert!(
        result.is_ok(),
        "Device to device copy failed: {:?}",
        result.err()
    );
}

fn check_copy_to() {
    let driver = FakeDriver::new();
    // Create source memory pointer
    let src_size = 1024;
    let src = MemoryPointer::<u32>::allocate(src_size, |bytes| driver.malloc(bytes)).unwrap();

    // Create destination memory pointer
    let dst = MemoryPointer::<u32>::allocate(src_size, |bytes| driver.malloc(bytes)).unwrap();

    // Test device to device copy
    let result = src.copy_to(&dst, MemoryCopyKind::DeviceToDevice, |call| {
        driver.memcpy(call)
    });
    assert!(result.is_ok());

    // Test with null pointer
    let null_ptr = MemoryPointer::<u32>::null();
    let result = src.copy_to(&null_ptr, MemoryCopyKind::DeviceToDevice, |call| {
        driver.memcpy(call)
    });
    assert!(result.is_err());

    // Test with insufficient destination size
    let small_dst =
        MemoryPointer::<u32>::allocate(src_size / 2, |bytes| driver.malloc(bytes)).unwrap();
    let result = src.copy_to(&small_dst, MemoryCopyKind::DeviceToDevice, |call| {
        driver.memcpy(call)
    });
    assert!(result.is_err());
}

#[test]
fn memory_test_memset() {
    check_memset();
}

#[test]
fn memory_test_new_zero_size() {
    check_new_zero_size();
}

#[test]
fn memory_test_new_valid_size() {
    check_new_valid_size();
}

#[test]
fn memory_test_new_different_types() {
    check_new_different_types();
}

#[test]
fn memory_test_large_allocation() {
    check_large_allocation();
}

#[test]
fn memory_test_alloc_with_flag_success() {
    check_alloc_with_flag_success();
}

#[test]
fn memory_test_alloc_with_flag_zero_size() {
    check_alloc_with_flag_zero_size();
}

#[test]
fn memory_test_device_to_device_copy() {
    check_device_to_device_copy();
}

#[test]
fn memory_test_copy_to() {
    check_copy_to();
}

#[test]
fn memory_type_test_memset() {
    check_memset();
}

#[test]
fn memory_type_test_new_zero_size() {
    check_new_zero_size();
}

#[test]
fn memory_type_test_new_valid_size() {
    check_new_valid_size();
}

#[test]
fn memory_type_test_new_different_types() {
    check_new_different_types();
}

#[test]
fn memory_type_test_large_allocation() {
    check_large_allocation();
}

#[test]
fn memory_type_test_alloc_with_flag_success() {
    check_alloc_with_flag_success();
}

#[test]
fn memory_type_test_alloc_with_flag_zero_size() {
    check_alloc_with_flag_zero_size();
}

#[test]
fn memory_type_test_device_to_device_copy() {
    check_device_to_device_copy();
}

#[test]
fn memory_type_test_copy_to() {
    check_copy_to();
}

#[test]
fn test_alloc_with_combined_flag() {
    let driver = FakeDriver::new();
    let size = 1024;
    let flag = DeviceMallocFlag::default_class().union(DeviceMallocFlag::finegrained());
    assert_eq!(flag.bits(), 0x1);
    let result = MemoryPointer::<u8>::alloc_with_flag(size, flag, |bytes, flags| {
        driver.malloc_with_flags(bytes, flags)
    });
    assert!(result.is_ok());
    let ptr = result.unwrap();
    assert!(!ptr.is_null());
}

#[test]
fn zero_size_allocation_and_release_make_no_driver_call() {
    let driver = FakeDriver::new();
    let block = MemoryPointer::<u64>::allocate(0, |bytes| driver.malloc(bytes)).unwrap();
    assert!(block.is_null());
    assert_eq!(block.size(), 0);
    assert_eq!(block.size_in_bytes(), 0);
    assert_eq!(driver.calls(), 0);
    assert_eq!(block.release(|address| driver.free(address)), None);
    assert_eq!(driver.calls(), 0);

    let block = MemoryPointer::<u64>::allocate(0, |bytes| driver.malloc(bytes)).unwrap();
    assert_eq!(block.free(|address| driver.free(address)), Ok(()));
    assert_eq!(driver.calls(), 0);
}

#[test]
fn byte_size_is_count_times_element_size() {
    let driver = FakeDriver::new();
    let block = MemoryPointer::<u32>::allocate(100, |bytes| {
        assert_eq!(bytes, 400);
        driver.malloc(bytes)
    })
    .unwrap();
    assert_eq!(block.size(), 100);
    assert_eq!(block.size_in_bytes(), 400);
    let block = MemoryPointer::<u64>::allocate(7, |bytes| driver.malloc(bytes)).unwrap();
    assert_eq!(block.size_in_bytes(), 56);
    let block = MemoryPointer::<u8>::allocate(1, |bytes| driver.malloc(bytes)).unwrap();
    assert_eq!(block.size_in_bytes(), 1);
}

#[test]
fn failed_allocation_gives_the_classified_error_and_no_block() {
    let driver = FakeDriver::new();
    let result = MemoryPointer::<u8>::allocate(LIMIT + 1, |bytes| driver.malloc(bytes));
    let error = result.unwrap_err();
    assert_eq!(error.status, HipStatus::MemoryAllocation);
    assert_eq!(error.code, 2);
    assert_eq!(driver.live(), 0);

    let result = MemoryPointer::<u8>::allocate(16, |_| (0xdead, 777));
    let error = result.unwrap_err();
    assert_eq!(error.status, HipStatus::Unknown);
    assert_eq!(error.code, 777);

    let result = MemoryPointer::<u8>::acquired(16, 0x40, 0).unwrap();
    assert_eq!(result.as_pointer(), 0x40);
    assert_eq!(result.size(), 16);
}

#[test]
fn copy_into_smaller_block_is_rejected_without_driver_call() {
    let driver = FakeDriver::new();
    let src = MemoryPointer::<u32>::allocate(8, |bytes| driver.malloc(bytes)).unwrap();
    let dst = MemoryPointer::<u32>::allocate(7, |bytes| driver.malloc(bytes)).unwrap();
    let before = driver.calls();
    let result = src.copy_to(&dst, MemoryCopyKind::DeviceToDevice, |call| {
        driver.memcpy(call)
    });
    assert_eq!(result, Err(invalid_value()));
    assert_eq!(driver.calls(), before);
    assert_eq!(
        src.copy_plan(&dst, MemoryCopyKind::DeviceToDevice),
        Err(invalid_value())
    );

    let null = MemoryPointer::<u32>::null();
    let result = null.copy_to(&dst, MemoryCopyKind::DeviceToDevice, |call| {
        driver.memcpy(call)
    });
    assert_eq!(result, Err(invalid_value()));
    let result = null.copy_to(&null, MemoryCopyKind::DeviceToDevice, |call| {
        driver.memcpy(call)
    });
    assert_eq!(result, Err(invalid_value()));
    assert_eq!(driver.calls(), before);
}

#[test]
fn copy_plan_hands_the_whole_source_to_the_driver() {
    let driver = FakeDriver::new();
    let src = MemoryPointer::<u32>::allocate(8, |bytes| driver.malloc(bytes)).unwrap();
    let dst = MemoryPointer::<u32>::allocate(9, |bytes| driver.malloc(bytes)).unwrap();
    let plan = src.copy_plan(&dst, MemoryCopyKind::DeviceToHost).unwrap();
    assert_eq!(
        plan,
        CopyCall {
            dst: dst.as_pointer(),
            src: src.as_pointer(),
            bytes: 32,
            kind: 2,
        }
    );
    let mut seen = None;
    let result = src.copy_to(&dst, MemoryCopyKind::DeviceToDeviceNoCU, |call| {
        seen = Some(call);
        600
    });
    assert_eq!(seen.unwrap().kind, 1024);
    assert_eq!(seen.unwrap().bytes, 32);
    let error = result.unwrap_err();
    assert_eq!(error.status, HipStatus::NotReady);
    assert_eq!(error.code, 600);
}

#[test]
fn fill_checks_length_before_any_driver_call() {
    let driver = FakeDriver::new();
    let block = MemoryPointer::<u8>::allocate(16, |bytes| driver.malloc(bytes)).unwrap();
    let before = driver.calls();
    assert_eq!(
        block.memset(0, 17, |call| driver.memset(call)),
        Err(invalid_value())
    );
    assert_eq!(block.memset(0, 0, |call| driver.memset(call)), Ok(()));
    assert_eq!(driver.calls(), before);
    assert_eq!(block.memset_plan(0, 17), FillPlan::Reject(invalid_value()));
    assert_eq!(block.memset_plan(9, 0), FillPlan::Nothing);
    assert_eq!(
        block.memset_plan(0xFF, 16),
        FillPlan::Call(FillCall {
            address: block.as_pointer(),
            value: 255,
            bytes: 16,
        })
    );
    assert_eq!(block.memset(1, 16, |call| driver.memset(call)), Ok(()));
    assert_eq!(driver.calls(), before + 1);

    let empty = MemoryPointer::<u8>::null();
    assert_eq!(empty.memset(0, 0, |call| driver.memset(call)), Ok(()));
    assert_eq!(
        empty.memset(0, 1, |call| driver.memset(call)),
        Err(invalid_value())
    );
    assert_eq!(driver.calls(), before + 1);

    let error = block.memset(1, 4, |_| 4).unwrap_err();
    assert_eq!(error.status, HipStatus::Deinitialized);
    assert_eq!(error.code, 4);
}

#[test]
fn zero_filled_block_reads_back_as_zeros() {
    let driver = FakeDriver::new();
    let n = 64;
    let block = MemoryPointer::<u8>::allocate(n, |bytes| driver.malloc(bytes)).unwrap();
    let out = MemoryPointer::<u8>::allocate(n, |bytes| driver.malloc(bytes)).unwrap();
    assert_eq!(block.memset(0, n, |call| driver.memset(call)), Ok(()));
    assert_eq!(
        block.copy_to(&out, MemoryCopyKind::DeviceToHost, |call| driver.memcpy(call)),
        Ok(())
    );
    assert_eq!(driver.read(out.as_pointer()), vec![0u8; 64]);
    // reading out again changes nothing
    assert_eq!(
        block.copy_to(&out, MemoryCopyKind::DeviceToHost, |call| driver.memcpy(call)),
        Ok(())
    );
    assert_eq!(driver.read(out.as_pointer()), vec![0u8; 64]);
}

#[test]
fn release_gives_the_block_back_once_and_records_failure() {
    let driver = FakeDriver::new();
    let block = MemoryPointer::<u16>::allocate(4, |bytes| driver.malloc(bytes)).unwrap();
    let address = block.as_pointer();
    assert_eq!(driver.live(), 1);
    assert_eq!(block.release(|a| driver.free(a)), None);
    assert_eq!(driver.live(), 0);

    // a driver that refuses the address: the failure is recorded, not raised
    let block = MemoryPointer::<u16>::acquired(4, address, 0).unwrap();
    let failure = block.release(|a| driver.free(a));
    assert_eq!(failure, Some(invalid_value()));

    let block = MemoryPointer::<u16>::acquired(4, address, 0).unwrap();
    assert_eq!(block.free(|a| driver.free(a)), Err(invalid_value()));
}

#[test]
fn copy_kind_codes_read_back() {
    let kinds = [
        (MemoryCopyKind::HostToHost, 0),
        (MemoryCopyKind::HostToDevice, 1),
        (MemoryCopyKind::DeviceToHost, 2),
        (MemoryCopyKind::DeviceToDevice, 3),
        (MemoryCopyKind::Default, 4),
        (MemoryCopyKind::DeviceToDeviceNoCU, 1024),
    ];
    for (kind, code) in kinds {
        assert_eq!(kind.to_raw(), code);
        assert_eq!(MemoryCopyKind::try_from(code), Ok(kind));
    }
    assert_eq!(MemoryCopyKind::try_from(5), Err(invalid_value()));
    assert_eq!(MemoryCopyKind::try_from(1023), Err(invalid_value()));
}

#[test]
fn flags_are_bit_patterns() {
    assert_eq!(DeviceMallocFlag::default_class().bits(), 0);
    assert_eq!(DeviceMallocFlag::finegrained().bits(), 1);
    assert_eq!(DeviceMallocFlag::signal_memory().bits(), 2);
    assert_eq!(DeviceMallocFlag::uncached().bits(), 3);
    assert_eq!(DeviceMallocFlag::contiguous().bits(), 4);
    let both = DeviceMallocFlag::finegrained().union(DeviceMallocFlag::contiguous());
    assert_eq!(both.bits(), 5);
    assert!(both.contains(DeviceMallocFlag::contiguous()));
    assert!(!both.contains(DeviceMallocFlag::signal_memory()));
    let driver = FakeDriver::new();
    let error = MemoryPointer::<u8>::alloc_with_flag(8, both, |bytes, flags| {
        driver.malloc_with_flags(bytes, flags)
    })
    .unwrap_err();
    assert_eq!(error, invalid_value());
}

#[test]
fn pool_properties_in_the_layout_of_the_driver() {
    let props = MemPoolProps::new()
        .with_alloc_type(MemAllocationType::Invalid)
        .with_handle_types(MemAllocationHandleType::Win32)
        .with_location(MemLocationType::Invalid, 3)
        .with_max_size(4096);
    let raw = props.to_sys_props();
    assert_eq!(raw.alloc_type, 0);
    assert_eq!(raw.handle_types, 2);
    assert_eq!(raw.location_type, 0);
    assert_eq!(raw.location_id, 3);
    assert_eq!(raw.max_size, 4096);
    assert_eq!(raw.security_attributes, 0);
    assert_eq!(raw.reserved, [0u8; 56]);
    assert_eq!(MemAllocationHandleType::NoHandle.to_raw(), 0);

    let driver = FakeDriver::new();
    let error = MemPool::create(props, |raw| driver.pool_create(raw.alloc_type)).unwrap_err();
    assert_eq!(error, invalid_value());

    let pool = MemPool::from_raw(0);
    assert!(pool.is_null());
    assert_eq!(pool.handle(), 0);
    assert_eq!(*pool.props(), MemPoolProps::default());
    let mut calls = 0;
    assert_eq!(
        pool.release(|_| {
            calls += 1;
            0
        }),
        None
    );
    assert_eq!(calls, 0);

    let pool = MemPool::create(MemPoolProps::new(), |raw| driver.pool_create(raw.alloc_type))
        .unwrap();
    let handle = pool.handle();
    let mut seen = 0;
    let failure = pool.release(|h| {
        seen = h;
        801
    });
    assert_eq!(seen, handle);
    assert_eq!(
        failure,
        Some(HipError {
            status: HipStatus::NotSupported,
            code: 801
        })
    );
}

#[test]
fn block_of_wide_elements_can_be_filled_whole() {
    let driver = FakeDriver::new();
    // 4 elements of 4 bytes: 16 bytes
    let block = MemoryPointer::<f32>::allocate(4, |bytes| driver.malloc(bytes)).unwrap();
    assert_eq!(block.size(), 4);
    assert_eq!(block.size_in_bytes(), 16);
    let mut seen = None;
    let result = block.memset(0, 16, |call| {
        seen = Some(call);
        driver.memset(call)
    });
    assert_eq!(result, Ok(()));
    assert_eq!(
        seen,
        Some(FillCall {
            address: block.as_pointer(),
            value: 0,
            bytes: 16,
        })
    );
    assert_eq!(driver.read(block.as_pointer()), vec![0u8; 16]);
    // a part of it, beyond the number of elements
    assert_eq!(
        block.memset_plan(7, 5),
        FillPlan::Call(FillCall {
            address: block.as_pointer(),
            value: 7,
            bytes: 5,
        })
    );
    // one byte beyond the block
    let before = driver.calls();
    assert_eq!(
        block.memset(0, 17, |call| driver.memset(call)),
        Err(invalid_value())
    );
    assert_eq!(block.memset_plan(0, 17), FillPlan::Reject(invalid_value()));
    assert_eq!(driver.calls(), before);

    let wide = MemoryPointer::<u64>::allocate(3, |bytes| driver.malloc(bytes)).unwrap();
    assert_eq!(wide.memset(0xFF, 24, |call| driver.memset(call)), Ok(()));
    assert_eq!(driver.read(wide.as_pointer()), vec![0xFFu8; 24]);
    assert_eq!(
        wide.memset(0xFF, 25, |call| driver.memset(call)),
        Err(invalid_value())
    );
}

#[test]
fn zero_filled_block_of_wide_elements_reads_back_as_zeros() {
    let driver = FakeDriver::new();
    let block = MemoryPointer::<u32>::allocate(8, |bytes| driver.malloc(bytes)).unwrap();
    let out = MemoryPointer::<u32>::allocate(8, |bytes| driver.malloc(bytes)).unwrap();
    let n = block.size_in_bytes();
    assert_eq!(n, 32);
    assert_eq!(block.memset(0, n, |call| driver.memset(call)), Ok(()));
    assert_eq!(
        block.copy_to(&out, MemoryCopyKind::DeviceToHost, |call| driver.memcpy(call)),
        Ok(())
    );
    assert_eq!(driver.read(out.as_pointer()), vec![0u8; 32]);
}

#[test]
fn address_accessors_agree() {
    let driver = FakeDriver::new();
    let block = MemoryPointer::<u16>::allocate(2, |bytes| driver.malloc(bytes)).unwrap();
    assert_eq!(block.as_ptr(), block.as_pointer());
    assert_eq!(MemoryPointer::<u16>::null().as_ptr(), 0);
}

#[test]
fn flags_keep_every_bit_they_are_made_of() {
    assert_eq!(DeviceMallocFlag::from_bits_retain(0x85).bits(), 0x85);
    assert_eq!(
        DeviceMallocFlag::from_bits_retain(1),
        DeviceMallocFlag::finegrained()
    );
    assert_eq!(DeviceMallocFlag::finegrained(), DeviceMallocFlag::finegrained());
    assert_ne!(DeviceMallocFlag::finegrained(), DeviceMallocFlag::uncached());
}

#[test]
fn test_new_zero_size() {
    check_new_zero_size();
}

#[test]
fn test_new_valid_size() {
    check_new_valid_size();
}

#[test]
fn test_new_different_types() {
    check_new_different_types();
}

#[test]
fn test_large_allocation() {
    check_large_allocation();
}

#[test]
fn test_alloc_with_flag_success() {
    check_alloc_with_flag_success();
}

#[test]
fn test_alloc_with_flag_zero_size() {
    check_alloc_with_flag_zero_size();
}
