//! The context of the linear-algebra library, as an owned handle.

use vstd::prelude::*;
use crate::hipblas::result::{blas_translated, BlasError, BlasResult};
use crate::text::{hexadecimal, push_hexadecimal, push_text};

verus! {

/// A context of the linear-algebra library, owned by one holder and
/// destroyed at most once. The handle 0 names no context.
#[derive(Debug)]
pub struct BlasHandle {
    handle: usize,
}

impl View for BlasHandle {
    type V = usize;

    closed spec fn view(&self) -> usize {
        self.handle
    }
}

/// The outcome of creating a context, the context taken by its handle.
pub open spec fn handle_viewed(r: BlasResult<BlasHandle>) -> Result<usize, BlasError> {
    match r {
        Ok(context) => Ok(context@),
        Err(e) => Err(e),
    }
}

/// What is recorded of a teardown call of the library: nothing for code 0,
/// else the classified error with the raw code.
pub open spec fn blas_diagnostic(code: u32) -> Option<BlasError> {
    match blas_translated((), code) {
        Ok(_) => None,
        Err(e) => Some(e),
    }
}

impl BlasHandle {
    /// Creates a context. `create_fn` is called once; it returns the handle
    /// and the raw code, which are translated: the context of that handle
    /// for code 0, else the classified error and no context.
    pub fn new<F>(create_fn: F) -> (r: BlasResult<Self>) where F: FnOnce() -> (usize, u32)
        requires
            call_requires(create_fn, ()),
        ensures
            exists|handle: usize, code: u32|
                call_ensures(create_fn, (), (handle, code)) && handle_viewed(r) == blas_translated(
                    handle,
                    code,
                ),
    {
        let (handle, code) = create_fn();
        let r = if code == 0 {
            Ok(BlasHandle { handle })
        } else {
            Err(BlasError::new(code))
        };
        assert(call_ensures(create_fn, (), (handle, code)) && handle_viewed(r) == blas_translated(
            handle,
            code,
        ));
        r
    }

    /// The handle of the context, to pass to further library calls.
    pub fn handle(&self) -> (handle: usize)
        ensures
            handle == self@,
    {
        self.handle
    }

    /// The handle that is given back to the library when the context is
    /// released: none for the handle 0.
    pub open spec fn release_call(handle: usize) -> Option<usize> {
        if handle == 0 {
            None
        } else {
            Some(handle)
        }
    }

    /// Releases the context, which is consumed. For the handle 0 nothing is
    /// done. Otherwise `destroy_fn` is called once with the handle. A
    /// failure is not raised: its classified error is returned for the
    /// record, and `None` where there is nothing to record.
    pub fn release<F>(self, destroy_fn: F) -> (failure: Option<BlasError>) where
        F: FnOnce(usize) -> u32,

        requires
            Self::release_call(self@) matches Some(handle) ==> call_requires(
                destroy_fn,
                (handle,),
            ),
        ensures
            match Self::release_call(self@) {
                None => failure is None,
                Some(handle) => exists|code: u32|
                    call_ensures(destroy_fn, (handle,), code) && failure == blas_diagnostic(code),
            },
    {
        if self.handle == 0 {
            return None;
        }
        let code = destroy_fn(self.handle);
        let failure = if code != 0 {
            Some(BlasError::new(code))
        } else {
            None
        };
        assert(call_ensures(destroy_fn, (self.handle,), code) && failure == blas_diagnostic(code));
        failure
    }

    /// The text of a context: `BlasHandle(0x<handle in hexadecimal>)`.
    pub open spec fn text(handle: usize) -> Seq<char> {
        "BlasHandle(0x"@ + hexadecimal(handle as nat) + ")"@
    }

    /// Describes the context by its handle.
    pub fn to_string(&self) -> (s: String)
        ensures
            s@ == Self::text(self@),
    {
        let mut out = String::new();
        push_text(&mut out, "BlasHandle(0x");
        push_hexadecimal(&mut out, self.handle as u64);
        push_text(&mut out, ")");
        assert(out@ =~= Self::text(self@));
        out
    }
}

} // verus!
