//! Streams: ordered queues of device work.

use vstd::prelude::*;
use crate::result::ResultExt;
use crate::hip::result::{
    diagnostic, hip_translated, teardown_diagnostic, HipError, HipResult,
};

verus! {

/// A stream of the driver, owned by one holder and destroyed at most once.
/// The handle 0 names no stream of its own.
#[derive(Debug)]
pub struct Stream {
    handle: usize,
}

impl View for Stream {
    type V = usize;

    closed spec fn view(&self) -> usize {
        self.handle
    }
}

/// The outcome of creating a stream, with the stream taken by its handle.
pub open spec fn stream_viewed(r: HipResult<Stream>) -> Result<usize, HipError> {
    match r {
        Ok(stream) => Ok(stream@),
        Err(e) => Err(e),
    }
}

impl Stream {
    /// Creates a stream. `create_fn` is called once; it returns the handle
    /// and the raw code of the driver's call, which are translated: the
    /// stream of that handle for code 0, else the classified error and no
    /// stream.
    pub fn create<F>(create_fn: F) -> (r: HipResult<Self>) where F: FnOnce() -> (usize, u32)
        requires
            call_requires(create_fn, ()),
        ensures
            exists|handle: usize, code: u32|
                call_ensures(create_fn, (), (handle, code)) && stream_viewed(r) == hip_translated(
                    handle,
                    code,
                ),
    {
        let (handle, code) = create_fn();
        let r = if code == 0 {
            Ok(Stream { handle })
        } else {
            Err(HipError::new(code))
        };
        assert(call_ensures(create_fn, (), (handle, code)) && stream_viewed(r) == hip_translated(
            handle,
            code,
        ));
        r
    }

    /// The handle of the stream, to pass to further driver calls.
    pub fn handle(&self) -> (handle: usize)
        ensures
            handle == self@,
    {
        self.handle
    }

    /// The handle on which the driver is asked whether the work of the
    /// stream is complete: none for the handle 0.
    pub open spec fn query_call(handle: usize) -> Option<usize> {
        if handle == 0 {
            None
        } else {
            Some(handle)
        }
    }

    /// Asks whether all work of the stream is complete. For the handle 0
    /// the answer is success and `query_fn` is not called. Otherwise
    /// `query_fn` is called once with the handle and its raw code is
    /// translated; work in progress comes back as the status `NotReady`.
    pub fn query_stream<F>(&self, query_fn: F) -> (r: HipResult<()>) where F: FnOnce(usize) -> u32
        requires
            Self::query_call(self@) matches Some(handle) ==> call_requires(query_fn, (handle,)),
        ensures
            match Self::query_call(self@) {
                None => r == Ok::<(), HipError>(()),
                Some(handle) => exists|code: u32|
                    call_ensures(query_fn, (handle,), code) && r == hip_translated((), code),
            },
    {
        if self.handle == 0 {
            return Ok(());
        }
        let code = query_fn(self.handle);
        let r = ((), code).to_result();
        assert(call_ensures(query_fn, (self.handle,), code) && r == hip_translated((), code));
        r
    }

    /// The handle that is given back to the driver when the stream is
    /// released: none for the handle 0.
    pub open spec fn release_call(handle: usize) -> Option<usize> {
        if handle == 0 {
            None
        } else {
            Some(handle)
        }
    }

    /// Releases the stream, which is consumed. For the handle 0 nothing is
    /// done. Otherwise `destroy_fn` is called once with the handle. A
    /// failure is not raised: its classified error is returned for the
    /// record, and `None` where there is nothing to record.
    pub fn release<F>(self, destroy_fn: F) -> (failure: Option<HipError>) where
        F: FnOnce(usize) -> u32,

        requires
            Self::release_call(self@) matches Some(handle) ==> call_requires(
                destroy_fn,
                (handle,),
            ),
        ensures
            match Self::release_call(self@) {
                None => failure is None,
                Some(handle) => exists|code: u32|
                    call_ensures(destroy_fn, (handle,), code) && failure == diagnostic(code),
            },
    {
        if self.handle == 0 {
            return None;
        }
        let code = destroy_fn(self.handle);
        let failure = teardown_diagnostic(code);
        assert(call_ensures(destroy_fn, (self.handle,), code) && failure == diagnostic(code));
        failure
    }
}

} // verus!
