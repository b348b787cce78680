use hip_rs::{BlasError, BlasHandle, BlasStatus, HipError, HipStatus, Stream};
use std::cell::Cell;

// A stand-in for the driver: each creation gives a handle of its own.
struct FakeDriver {
    next: Cell<usize>,
    live: Cell<usize>,
}

impl FakeDriver {
    fn new() -> Self {
        FakeDriver {
            next: Cell::new(0x5000),
            live: Cell::new(0),
        }
    }

    fn create(&self) -> (usize, u32) {
        let handle = self.next.get();
        self.next.set(handle + 0x40);
        self.live.set(self.live.get() + 1);
        (handle, 0)
    }

    fn destroy(&self, handle: usize) -> u32 {
        if handle == 0 || self.live.get() == 0 {
            return 1;
        }
        self.live.set(self.live.get() - 1);
        0
    }

    fn query(&self, handle: usize) -> u32 {
        if handle == 0 {
            1
        } else {
            0
        }
    }
}

#[test]
fn test_stream_query() {
    let driver = FakeDriver::new();
    let stream = Stream::create(|| driver.create()).unwrap();

    // Test querying an empty stream (should be complete)
    let result = stream.query_stream(|handle| driver.query(handle));
    assert!(result.is_ok(), "Empty stream should report as complete");
}

#[test]
fn test_stream_create() {
    let driver = FakeDriver::new();
    let stream = Stream::create(|| driver.create());
    assert!(stream.is_ok());
    let stream = stream.unwrap();
    assert!(stream.handle() != 0);
}

#[test]
fn test_stream_drop() {
    let driver = FakeDriver::new();
    let stream = Stream::create(|| driver.create()).unwrap();
    // Stream should be properly destroyed here
    assert_eq!(stream.release(|handle| driver.destroy(handle)), None);
    assert_eq!(driver.live.get(), 0);
}

#[test]
fn test_handle_create() {
    let driver = FakeDriver::new();
    let handle = BlasHandle::new(|| driver.create());
    assert!(handle.is_ok(), "Failed to create BlasHandle");
    let handle = handle.unwrap();
    assert!(handle.handle() != 0, "Handle is null after creation");
}

#[test]
fn test_handle_drop() {
    let driver = FakeDriver::new();
    let handle = BlasHandle::new(|| driver.create()).unwrap();
    // Should not panic or cause memory leaks
    assert_eq!(handle.release(|h| driver.destroy(h)), None);
    assert_eq!(driver.live.get(), 0);
}

#[test]
fn test_multiple_handles() {
    let driver = FakeDriver::new();
    // Create multiple handles to ensure they don't interfere
    let handle1 = BlasHandle::new(|| driver.create()).unwrap();
    let handle2 = BlasHandle::new(|| driver.create()).unwrap();

    assert!(handle1.handle() != 0);
    assert!(handle2.handle() != 0);
    assert_ne!(
        handle1.handle(),
        handle2.handle(),
        "Handles should be unique"
    );
}

#[test]
fn test_handle_in_closure() {
    let driver = FakeDriver::new();
    let handle = BlasHandle::new(|| driver.create()).unwrap();
    let closure = || {
        assert!(handle.handle() != 0);
    };
    closure();
}

#[test]
fn test_handle_memory_stress() {
    let driver = FakeDriver::new();
    // Create and destroy multiple handles in a loop
    for _ in 0..100 {
        let handle = BlasHandle::new(|| driver.create()).unwrap();
        assert!(handle.handle() != 0);
        assert_eq!(handle.release(|h| driver.destroy(h)), None);
    }
    assert_eq!(driver.live.get(), 0);
}

#[test]
fn test_handle_null_check() {
    let driver = FakeDriver::new();
    let handle = BlasHandle::new(|| driver.create()).unwrap();
    assert!(handle.handle() != 0, "Handle should not be null");
}

#[test]
fn two_streams_have_two_handles() {
    let driver = FakeDriver::new();
    let first = Stream::create(|| driver.create()).unwrap();
    let second = Stream::create(|| driver.create()).unwrap();
    assert_ne!(first.handle(), second.handle());
}

#[test]
fn failed_creation_gives_no_handle() {
    let stream = Stream::create(|| (0x99, 2));
    assert_eq!(
        stream.unwrap_err(),
        HipError {
            status: HipStatus::MemoryAllocation,
            code: 2
        }
    );
    let context = BlasHandle::new(|| (0x99, 1));
    assert_eq!(
        context.unwrap_err(),
        BlasError {
            status: BlasStatus::NotInitialized,
            code: 1
        }
    );
}

#[test]
fn stream_in_progress_is_not_ready() {
    let driver = FakeDriver::new();
    let stream = Stream::create(|| driver.create()).unwrap();
    let mut asked = 0;
    let result = stream.query_stream(|handle| {
        asked = handle;
        600
    });
    assert_eq!(asked, stream.handle());
    assert_eq!(
        result,
        Err(HipError {
            status: HipStatus::NotReady,
            code: 600
        })
    );
}

#[test]
fn handle_zero_is_never_handed_to_the_driver() {
    let mut calls = 0;
    let stream = Stream::create(|| (0, 0)).unwrap();
    assert_eq!(stream.handle(), 0);
    assert_eq!(
        stream.query_stream(|_| {
            calls += 1;
            1
        }),
        Ok(())
    );
    assert_eq!(
        stream.release(|_| {
            calls += 1;
            1
        }),
        None
    );
    let context = BlasHandle::new(|| (0, 0)).unwrap();
    assert_eq!(
        context.release(|_| {
            calls += 1;
            1
        }),
        None
    );
    assert_eq!(calls, 0);
}

#[test]
fn failed_teardown_is_recorded_not_raised() {
    let driver = FakeDriver::new();
    let stream = Stream::create(|| driver.create()).unwrap();
    assert_eq!(
        stream.release(|_| 4),
        Some(HipError {
            status: HipStatus::Deinitialized,
            code: 4
        })
    );
    let context = BlasHandle::new(|| driver.create()).unwrap();
    let handle = context.handle();
    let mut seen = 0;
    let failure = context.release(|h| {
        seen = h;
        6
    });
    assert_eq!(seen, handle);
    assert_eq!(
        failure,
        Some(BlasError {
            status: BlasStatus::InternalError,
            code: 6
        })
    );
}

#[test]
fn handle_text_is_hexadecimal() {
    let context = BlasHandle::new(|| (0x7f3a_10c0, 0)).unwrap();
    assert_eq!(context.to_string(), "BlasHandle(0x7f3a10c0)");
    let context = BlasHandle::new(|| (0, 0)).unwrap();
    assert_eq!(context.to_string(), "BlasHandle(0x0)");
    let context = BlasHandle::new(|| (255, 0)).unwrap();
    assert_eq!(context.to_string(), "BlasHandle(0xff)");
}
