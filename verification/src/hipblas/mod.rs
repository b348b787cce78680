//! The linear-algebra family of calls: statuses, operations and contexts.

pub mod blas_call;
pub mod gemm;
pub mod gemm_batched;
pub mod handle;
pub mod result;
pub mod types;

pub use blas_call::blas_call;
pub use handle::BlasHandle;
pub use result::{BlasError, BlasResult, BlasStatus};
pub use types::{Operation, Status};
