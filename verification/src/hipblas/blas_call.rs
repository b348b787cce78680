//! One library call whose only answer is its raw code.

use vstd::prelude::*;
use crate::hipblas::result::{blas_translated, BlasResult};
use crate::result::ResultExt;

verus! {

/// Makes one call of the linear-algebra family and translates its raw
/// code: success for code 0, else the classified error.
pub fn blas_call<F>(call: F) -> (r: BlasResult<()>) where F: FnOnce() -> u32
    requires
        call_requires(call, ()),
    ensures
        exists|code: u32| call_ensures(call, (), code) && r == blas_translated((), code),
{
    let code = call();
    let r = ((), code).to_result();
    assert(call_ensures(call, (), code) && r == blas_translated((), code));
    r
}

} // verus!
