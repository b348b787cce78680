use hip_rs::result::{ResultExt, StatusCode};
use hip_rs::{BlasError, BlasResult, BlasStatus};

#[test]
fn test_blas_status_from() {
    assert_eq!(BlasStatus::from(0), BlasStatus::Success);
    assert_eq!(BlasStatus::from(1), BlasStatus::NotInitialized);
    assert_eq!(BlasStatus::from(2), BlasStatus::AllocationFailed);
    assert_eq!(BlasStatus::from(3), BlasStatus::InvalidValue);
    assert_eq!(BlasStatus::from(4), BlasStatus::MappingError);
    assert_eq!(BlasStatus::from(5), BlasStatus::ExecutionFailed);
    assert_eq!(BlasStatus::from(6), BlasStatus::InternalError);
    assert_eq!(BlasStatus::from(7), BlasStatus::NotSupported);
    assert_eq!(BlasStatus::from(8), BlasStatus::ArchMismatch);
    assert_eq!(BlasStatus::from(9), BlasStatus::HandleIsNullPointer);
    assert_eq!(BlasStatus::from(10), BlasStatus::InvalidEnum);
    assert_eq!(BlasStatus::from(11), BlasStatus::Unknown);
    assert_eq!(BlasStatus::from(999), BlasStatus::Unknown);
}

#[test]
fn test_blas_error_new() {
    let error = BlasError::new(3);
    assert_eq!(error.status, BlasStatus::InvalidValue);
    assert_eq!(error.code, 3);
}

#[test]
fn test_blas_error_from_status() {
    let error = BlasError::from_status(BlasStatus::Success);
    assert_eq!(error.status, BlasStatus::Success);
    assert_eq!(error.code, 0);
}

#[test]
fn test_status_code_traits() {
    let success = BlasError::new(0);
    let error = BlasError::new(1);

    assert!(success.is_success());
    assert!(!error.is_success());

    assert_eq!(success.code(), 0);
    assert_eq!(error.code(), 1);

    assert_eq!(success.kind_str(), "HIPBLAS");
    assert_eq!(error.kind_str(), "HIPBLAS");
}

#[test]
fn test_result_ext() {
    let success: BlasResult<i32> = (42, 0).to_result();
    let error: BlasResult<i32> = (42, 1).to_result();

    assert!(success.is_ok());
    assert!(error.is_err());

    assert_eq!(success.unwrap(), 42);
    assert_eq!(error.unwrap_err().status, BlasStatus::NotInitialized);
}

#[test]
fn blas_unknown_code_is_kept() {
    let error = BlasError::new(77);
    assert_eq!(error.status, BlasStatus::Unknown);
    assert_eq!(error.code, 77);
    assert_eq!(error.describe(), "HIPBLAS status: Unknown (code: 77)");
    assert_eq!(BlasError::from_status(BlasStatus::Unknown).code, 11);
}
