//! Matrix multiplication: what is handed to the library's routine.

use vstd::prelude::*;
use crate::hip::memory::MemoryPointer;
use crate::hipblas::handle::BlasHandle;
use crate::hipblas::result::{blas_translated, BlasResult};
use crate::hipblas::types::Operation;
use crate::result::ResultExt;

verus! {

/// The arguments of the library's multiplication routine, but for the two
/// scalars: the context, the raw codes of the operations, the sizes and
/// the device addresses of the three matrices.
#[derive(Debug, Clone, Copy, PartialEq, Eq, Structural)]
pub struct GemmCall {
    pub handle: usize,
    pub trans_a: u32,
    pub trans_b: u32,
    pub m: i32,
    pub n: i32,
    pub k: i32,
    pub a: usize,
    pub lda: i32,
    pub b: usize,
    pub ldb: i32,
    pub c: usize,
    pub ldc: i32,
}

/// Multiplies matrices on the device: `C = alpha * op(A) * op(B) + beta *
/// C`. `routine` is called once with the arguments as they were given, the
/// operations by their raw codes and the blocks by their addresses, and
/// with the two scalars; its raw code is translated. The three blocks stay
/// as they are: the routine writes device memory, not the handles.
pub fn gemm<T, F>(
    handle: &BlasHandle,
    trans_a: Operation,
    trans_b: Operation,
    m: i32,
    n: i32,
    k: i32,
    alpha: &T,
    a: &MemoryPointer<T>,
    lda: i32,
    b: &MemoryPointer<T>,
    ldb: i32,
    beta: &T,
    c: &mut MemoryPointer<T>,
    ldc: i32,
    routine: F,
) -> (r: BlasResult<()>) where F: FnOnce(GemmCall, &T, &T) -> u32
    requires
        call_requires(
            routine,
            (
                GemmCall {
                    handle: handle@,
                    trans_a: trans_a.raw(),
                    trans_b: trans_b.raw(),
                    m,
                    n,
                    k,
                    a: a@.address,
                    lda,
                    b: b@.address,
                    ldb,
                    c: old(c)@.address,
                    ldc,
                },
                alpha,
                beta,
            ),
        ),
    ensures
        final(c)@ == old(c)@,
        exists|code: u32|
            call_ensures(
                routine,
                (
                    GemmCall {
                        handle: handle@,
                        trans_a: trans_a.raw(),
                        trans_b: trans_b.raw(),
                        m,
                        n,
                        k,
                        a: a@.address,
                        lda,
                        b: b@.address,
                        ldb,
                        c: old(c)@.address,
                        ldc,
                    },
                    alpha,
                    beta,
                ),
                code,
            ) && r == blas_translated((), code),
{
    let call = GemmCall {
        handle: handle.handle(),
        trans_a: trans_a.to_raw(),
        trans_b: trans_b.to_raw(),
        m,
        n,
        k,
        a: a.as_pointer(),
        lda,
        b: b.as_pointer(),
        ldb,
        c: c.as_pointer(),
        ldc,
    };
    let code = routine(call, alpha, beta);
    let r = ((), code).to_result();
    assert(call_ensures(routine, (call, alpha, beta), code) && r == blas_translated((), code));
    r
}

} // verus!
