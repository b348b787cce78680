//! One driver call whose only answer is its raw code.

use vstd::prelude::*;
use crate::hip::result::{hip_translated, HipResult};
use crate::result::ResultExt;

verus! {

/// Makes one call of the device family and translates its raw code:
/// success for code 0, else the classified error.
pub fn hip_call<F>(call: F) -> (r: HipResult<()>) where F: FnOnce() -> u32
    requires
        call_requires(call, ()),
    ensures
        exists|code: u32| call_ensures(call, (), code) && r == hip_translated((), code),
{
    let code = call();
    let r = ((), code).to_result();
    assert(call_ensures(call, (), code) && r == hip_translated((), code));
    r
}

} // verus!
