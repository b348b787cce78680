//! The runtime family of calls: start-up, version, the active device and
//! plain memory.

pub mod device;
pub mod init;
pub mod memory;
pub mod result;

pub use device::set_device;
pub use init::{decode_hip_version, initialize, runtime_get_version};
pub use memory::{free, malloc};
pub use result::{HipError, HipErrorKind, HipResult, HipSuccess, Result};
