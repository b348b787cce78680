//! The active device of the calling thread.

use vstd::prelude::*;
use crate::hip::device::Device;
use crate::runtime::result::{runtime_translated, HipResult, Result};

verus! {

/// Makes a device the active one on this thread. `set_fn` is called once
/// with the ordinal and its raw code is translated.
pub fn set_device<F>(device: Device, set_fn: F) -> (r: Result<()>) where F: FnOnce(i32) -> u32
    requires
        call_requires(set_fn, (device@,)),
    ensures
        exists|code: u32|
            call_ensures(set_fn, (device@,), code) && r == runtime_translated((), code),
{
    let code = set_fn(device.id());
    let r = ((), code).to_result();
    assert(call_ensures(set_fn, (device@,), code) && r == runtime_translated((), code));
    r
}

} // verus!
