use hip_rs::result::{ResultExt, StatusCode};
use hip_rs::{HipError, HipResult, HipStatus};

#[test]
fn test_hip_status_from() {
    assert_eq!(HipStatus::from(0), HipStatus::Success);
    assert_eq!(HipStatus::from(1), HipStatus::InvalidValue);
    assert_eq!(HipStatus::from(2), HipStatus::MemoryAllocation);
    assert_eq!(HipStatus::from(3), HipStatus::NotInitialized);
    assert_eq!(HipStatus::from(4), HipStatus::Deinitialized);
    assert_eq!(HipStatus::from(101), HipStatus::InvalidDevice);
    assert_eq!(HipStatus::from(301), HipStatus::FileNotFound);
    assert_eq!(HipStatus::from(600), HipStatus::NotReady);
    assert_eq!(HipStatus::from(801), HipStatus::NotSupported);
    assert_eq!(HipStatus::from(1000), HipStatus::Unknown);
}

#[test]
fn test_hip_error_new() {
    let error = HipError::new(1);
    assert_eq!(error.status, HipStatus::InvalidValue);
    assert_eq!(error.code, 1);
}

#[test]
fn test_hip_error_from_status() {
    let error = HipError::from_status(HipStatus::InvalidValue);
    assert_eq!(error.status, HipStatus::InvalidValue);
    assert_eq!(error.code, 1);
}

#[test]
fn test_hip_error_status_code() {
    let error = HipError::new(0);
    assert!(error.is_success());
    assert_eq!(error.code(), 0);
    assert_eq!(error.kind_str(), "HIP");

    let error = HipError::new(1);
    assert!(!error.is_success());
    assert_eq!(error.code(), 1);
}

#[test]
fn result_test_result_ext() {
    let success: HipResult<i32> = (42, 0).to_result();
    assert!(success.is_ok());
    assert_eq!(success.unwrap(), 42);

    let error: HipResult<i32> = (42, 1).to_result();
    assert!(error.is_err());
    assert_eq!(error.unwrap_err().code, 1);
}

#[test]
fn unknown_code_is_kept() {
    let error = HipError::new(123456);
    assert_eq!(error.status, HipStatus::Unknown);
    assert_eq!(error.code, 123456);
    assert_eq!(error.describe(), "HIP status: Unknown (code: 123456)");
}
