use hip_rs::runtime::{
    decode_hip_version, free, initialize, malloc, runtime_get_version, set_device, HipError,
    HipErrorKind, HipResult, HipSuccess,
};
use hip_rs::types::DriverVersion;
use hip_rs::{Device, MemoryPointer};
use std::cell::Cell;

// A stand-in for the runtime: one device, a version, and a count of live
// blocks.
struct FakeRuntime {
    live: Cell<usize>,
}

impl FakeRuntime {
    fn new() -> Self {
        FakeRuntime { live: Cell::new(0) }
    }

    fn init(&self, flags: u32) -> u32 {
        if flags == 0 {
            0
        } else {
            1
        }
    }

    fn version(&self) -> (i32, u32) {
        (6_002_041, 0)
    }

    fn set(&self, id: i32) -> u32 {
        if id == 0 {
            0
        } else {
            101
        }
    }

    fn malloc(&self, bytes: usize) -> (usize, u32) {
        if bytes > 1 << 30 {
            return (0, 2);
        }
        self.live.set(self.live.get() + 1);
        (0x2000 + bytes, 0)
    }

    fn free(&self, address: usize) -> u32 {
        if address == 0 || self.live.get() == 0 {
            return 1;
        }
        self.live.set(self.live.get() - 1);
        0
    }
}

#[test]
fn test_set_valid_device() {
    let runtime = FakeRuntime::new();
    let device = Device::new(0);
    let result = set_device(device, |id| runtime.set(id));
    assert!(result.is_ok());
}

#[test]
fn test_set_invalid_device() {
    let runtime = FakeRuntime::new();
    let invalid_device = Device::new(999);
    let result = set_device(invalid_device, |id| runtime.set(id));
    assert!(result.is_err());
    assert_eq!(result.unwrap_err().kind, HipErrorKind::InvalidDevice);
}

fn check_initialize() {
    let runtime = FakeRuntime::new();
    // Test success case
    let result = initialize(|flags| runtime.init(flags));
    assert!(result.is_ok());
}

fn check_runtime_get_version() {
    let runtime = FakeRuntime::new();
    let result = runtime_get_version(|| runtime.version());
    assert!(result.is_ok());
    let version = result.unwrap();
    println!(
        "Runtime version: {}.{}.{}",
        version.major, version.minor, version.patch
    );
    assert_eq!((version.major, version.minor, version.patch), (6, 2, 41));
}

#[test]
fn init_test_initialize() {
    check_initialize();
}

#[test]
fn init_test_runtime_get_version() {
    check_runtime_get_version();
}

#[test]
fn safe_test_initialize() {
    check_initialize();
}

#[test]
fn safe_test_runtime_get_version() {
    check_runtime_get_version();
}

#[test]
fn test_free_null_pointer() {
    let runtime = FakeRuntime::new();
    let ptr: MemoryPointer<u8> = MemoryPointer::null();
    let mut calls = 0;
    assert!(free(ptr, |address| {
        calls += 1;
        runtime.free(address)
    })
    .is_ok());
    assert_eq!(calls, 0);
}

#[test]
fn test_free_allocated_memory() {
    let runtime = FakeRuntime::new();
    let ptr = malloc::<u8, _>(1024, |bytes| runtime.malloc(bytes)).unwrap();
    assert_eq!(runtime.live.get(), 1);
    assert!(free(ptr, |address| runtime.free(address)).is_ok());
    assert_eq!(runtime.live.get(), 0);
}

#[test]
fn malloc_classifies_by_the_table_of_the_runtime() {
    let runtime = FakeRuntime::new();
    let error = malloc::<u8, _>((1 << 30) + 1, |bytes| runtime.malloc(bytes)).unwrap_err();
    assert_eq!(
        error,
        HipError {
            kind: HipErrorKind::ErrorMemoryAllocation,
            code: 2
        }
    );
    let empty = malloc::<u32, _>(0, |_| (7, 7)).unwrap();
    assert!(empty.is_null());
    let block = malloc::<u32, _>(3, |bytes| {
        assert_eq!(bytes, 12);
        runtime.malloc(bytes)
    })
    .unwrap();
    assert_eq!(block.size_in_bytes(), 12);
    let error = free(block, |_| 4).unwrap_err();
    assert_eq!(error.kind, HipErrorKind::Deinitialized);
    assert_eq!(error.code, 4);
}

#[test]
fn runtime_table_decodes_every_code() {
    assert_eq!(HipErrorKind::from_raw(1), HipErrorKind::InvalidValue);
    assert_eq!(HipErrorKind::from_raw(2), HipErrorKind::ErrorMemoryAllocation);
    assert_eq!(HipErrorKind::from_raw(3), HipErrorKind::DeviceAlreadyInUse);
    assert_eq!(HipErrorKind::from_raw(4), HipErrorKind::Deinitialized);
    assert_eq!(HipErrorKind::from_raw(101), HipErrorKind::InvalidDevice);
    assert_eq!(HipErrorKind::from_raw(301), HipErrorKind::FileNotFound);
    assert_eq!(HipErrorKind::from_raw(0), HipErrorKind::Unknown);
    assert_eq!(HipErrorKind::from_raw(600), HipErrorKind::Unknown);
    assert_eq!(HipErrorKind::Unknown.to_raw(), 999);
    assert_eq!(HipSuccess::new(), HipSuccess::Success);
    assert_eq!(HipSuccess::new().to_raw(), 0);

    let error = HipError::new(101);
    assert_eq!(error.kind, HipErrorKind::InvalidDevice);
    assert_eq!(error.code, 101);
    assert_eq!(error.to_string(), "HIP error: InvalidDevice (code: 101)");
    let error = HipError::new(4242);
    assert_eq!(error.kind, HipErrorKind::Unknown);
    assert_eq!(error.code, 4242);
    assert_eq!(error.to_string(), "HIP error: Unknown (code: 4242)");
    let error = HipError::from_kind(HipErrorKind::FileNotFound);
    assert_eq!(error.code, 301);
    assert_eq!(error, HipError::new(301));
}

#[test]
fn runtime_translation() {
    let ok: hip_rs::runtime::Result<&str> = ("value", 0).to_result();
    assert_eq!(ok, Ok("value"));
    let failed: hip_rs::runtime::Result<&str> = ("value", 3).to_result();
    assert_eq!(
        failed,
        Err(HipError {
            kind: HipErrorKind::DeviceAlreadyInUse,
            code: 3
        })
    );
    assert_eq!(initialize(|_| 3).unwrap_err().code, 3);
    assert_eq!(
        runtime_get_version(|| (6_002_041, 1)).unwrap_err().kind,
        HipErrorKind::InvalidValue
    );
}

#[test]
fn version_number_is_decoded_by_thousands() {
    let v = decode_hip_version(6_002_041);
    assert_eq!((v.major, v.minor, v.patch), (6, 2, 41));
    assert_eq!(v, semver::Version::new(6, 2, 41));
    let v = decode_hip_version(-1);
    assert_eq!(v, semver::Version::new(0, 0, 0));
    let v = decode_hip_version(0);
    assert_eq!(v, semver::Version::new(0, 0, 0));
    let v = decode_hip_version(60_241_133);
    assert_eq!(v, semver::Version::new(60, 241, 133));
    let v = decode_hip_version(999);
    assert_eq!(v, semver::Version::new(0, 0, 999));
    let v = decode_hip_version(i32::MAX);
    assert_eq!(v, semver::Version::new(2147, 483, 647));
    assert!(v.pre.is_empty() && v.build.is_empty());
}

#[test]
fn driver_version_as_text() {
    assert_eq!(DriverVersion::major_minor_patch(6, 2, 41).to_string(), "6.2.41");
    assert_eq!(DriverVersion::major_minor(9, 0).to_string(), "9.0");
    assert_eq!(DriverVersion::new(0, 0, Some(0)).to_string(), "0.0.0");
    assert_eq!(
        DriverVersion::new(u32::MAX, 10, None).to_string(),
        "4294967295.10"
    );
    assert_eq!(
        DriverVersion::major_minor_patch(1, 2, 3),
        DriverVersion::new(1, 2, Some(3))
    );
    assert!(DriverVersion::major_minor(1, 2) < DriverVersion::major_minor_patch(1, 2, 0));
    assert!(DriverVersion::major_minor(1, 9) < DriverVersion::major_minor(1, 10));
}
