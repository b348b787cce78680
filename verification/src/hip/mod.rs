//! The device family of calls: statuses, devices, memory, pools and
//! streams.

pub mod device;
pub mod device_types;
pub mod flags;
pub mod hip_call;
pub mod mem_pool;
pub mod memory;
pub mod result;
pub mod stream;
