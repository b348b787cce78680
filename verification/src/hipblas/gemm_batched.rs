//! Batched matrix multiplication, as the sequence of driver calls that it
//! takes.
//!
//! A batched multiplication reads three tables of device addresses, one
//! per matrix of each product. The tables lie on the host; the routine
//! wants them on the device. So the work is: allocate three tables on the
//! device, copy the host tables into them, run the routine, wait for the
//! device, and free the three tables. The machine below decides each call
//! from the answers to the calls before it; the caller makes the calls.

use vstd::prelude::*;
use vstd::layout::size_of;
use crate::hipblas::handle::BlasHandle;
use crate::hip::result::{diagnostic, teardown_diagnostic, HipError};
use crate::hipblas::result::{blas_translated, BlasError, BlasResult, BlasStatus};
use crate::hipblas::types::Operation;
use crate::result::ResultExt;

verus! {

/// The arguments of the library's batched routine, but for the two
/// scalars. `a`, `b` and `c` are the device addresses of the three tables.
#[derive(Debug, Clone, Copy, PartialEq, Eq, Structural)]
pub struct GemmBatchedCall {
    pub handle: usize,
    pub trans_a: u32,
    pub trans_b: u32,
    pub m: i32,
    pub n: i32,
    pub k: i32,
    pub a: usize,
    pub lda: i32,
    pub b: usize,
    pub ldb: i32,
    pub c: usize,
    pub ldc: i32,
    pub batch_count: i32,
}

/// One of the three tables of a batched multiplication.
#[derive(Debug, Clone, Copy, PartialEq, Eq, Structural)]
pub enum BatchTable {
    A,
    B,
    C,
}

/// The call that the machine waits on.
#[derive(Debug, Clone, Copy, PartialEq, Eq, Structural)]
pub enum BatchedPhase {
    AllocA,
    AllocB,
    AllocC,
    UploadA,
    UploadB,
    UploadC,
    Run,
    Sync,
    Freeing,
    Done,
}

/// What the caller does next.
#[derive(Debug, Clone, Copy, PartialEq, Eq)]
pub enum BatchedAction {
    /// Allocate this many bytes on the device and answer with the address
    /// and the raw code.
    Allocate { bytes: usize },
    /// Copy this many bytes of a host table to the device address and
    /// answer with the raw code.
    Upload { table: BatchTable, dst: usize, bytes: usize },
    /// Run the routine and answer with its raw code.
    Run(GemmBatchedCall),
    /// Wait for the device and answer with the raw code.
    Synchronize,
    /// Free the device memory at this address and answer with the raw code.
    Free { address: usize },
    /// Make no further call: this is the result.
    Finish(BlasResult<()>),
}

/// The driver's answer to a call. The address counts only in the answer to
/// an allocation.
#[derive(Debug, Clone, Copy, PartialEq, Eq, Structural)]
pub struct DriverReply {
    pub address: usize,
    pub code: u32,
}

/// The state of a batched multiplication: the call it waits on, the
/// routine's arguments with the tables as far as they are allocated and
/// not yet freed (0 where there is none), the size of one table, the raw
/// code of the linear-algebra family that decides the result, and the raw
/// code of the first driver call that failed (0 where none did).
#[derive(Debug, Clone, Copy, PartialEq, Eq, Structural)]
pub struct BatchedState {
    pub phase: BatchedPhase,
    pub call: GemmBatchedCall,
    pub bytes: usize,
    pub code: u32,
    pub driver: u32,
}

/// The raw code of the status `AllocationFailed`, with which the work ends
/// when the driver cannot allocate a table.
pub open spec fn allocation_failed() -> u32 {
    2
}

/// The raw code of the status `MappingError`, with which the work ends when
/// the driver cannot copy a table to the device.
pub open spec fn mapping_error() -> u32 {
    4
}

/// The raw code of the status `ExecutionFailed`, with which the work ends
/// when the routine was started but the wait for the device fails.
pub open spec fn execution_failed() -> u32 {
    5
}

/// The size in bytes of a table of `batch_count` addresses, where the
/// count is not negative and the size fits the machine word.
pub open spec fn table_bytes(batch_count: i32) -> Option<usize> {
    if 0 <= batch_count && batch_count * size_of::<usize>() <= usize::MAX {
        Some((batch_count * size_of::<usize>()) as usize)
    } else {
        None
    }
}

/// Whether the three host tables hold at least `batch_count` addresses
/// each and a device table of that many addresses has a size.
pub open spec fn batch_fits(batch_count: i32, a_len: usize, b_len: usize, c_len: usize) -> bool {
    &&& table_bytes(batch_count) is Some
    &&& batch_count <= a_len
    &&& batch_count <= b_len
    &&& batch_count <= c_len
}

impl BatchedState {
    /// How many device tables are held.
    pub open spec fn held(self) -> nat {
        (if self.call.a != 0 {
            1nat
        } else {
            0nat
        }) + (if self.call.b != 0 {
            1nat
        } else {
            0nat
        }) + (if self.call.c != 0 {
            1nat
        } else {
            0nat
        })
    }

    /// How far a phase is from the end.
    pub open spec fn rank(self) -> nat {
        match self.phase {
            BatchedPhase::AllocA => 9,
            BatchedPhase::AllocB => 8,
            BatchedPhase::AllocC => 7,
            BatchedPhase::UploadA => 6,
            BatchedPhase::UploadB => 5,
            BatchedPhase::UploadC => 4,
            BatchedPhase::Run => 3,
            BatchedPhase::Sync => 2,
            BatchedPhase::Freeing => 1,
            BatchedPhase::Done => 0,
        }
    }

    /// A bound on the calls that are still to come.
    pub open spec fn measure(self) -> nat {
        4 * self.rank() + self.held()
    }

    /// Whether the machine still waits on a call that comes before the
    /// routine's answer.
    pub open spec fn before_answer(self) -> bool {
        self.phase != BatchedPhase::Sync && self.phase != BatchedPhase::Freeing && self.phase
            != BatchedPhase::Done
    }

    /// A table is held only once its allocation was answered, none is held
    /// at the end, no failure is recorded while the work goes forward, and
    /// a driver failure is recorded only together with a failed result.
    pub open spec fn inv(self) -> bool {
        &&& match self.phase {
            BatchedPhase::AllocA => self.call.a == 0 && self.call.b == 0 && self.call.c == 0,
            BatchedPhase::AllocB => self.call.b == 0 && self.call.c == 0,
            BatchedPhase::AllocC => self.call.c == 0,
            BatchedPhase::Done => self.call.a == 0 && self.call.b == 0 && self.call.c == 0,
            _ => true,
        }
        &&& self.before_answer() ==> self.code == 0 && self.driver == 0
        &&& self.driver != 0 ==> self.code != 0
    }

    /// The result that the machine ends with: the translation of its raw
    /// code.
    pub open spec fn outcome(self) -> BlasResult<()> {
        blas_translated((), self.code)
    }

    /// The classified error of the first driver call that failed, kept
    /// with its raw code beside the result.
    pub open spec fn driver_failure(self) -> Option<HipError> {
        diagnostic(self.driver)
    }

    /// The state after a driver call failed: the result is the status
    /// `status` of the linear-algebra family, and the driver's raw code is
    /// kept. A failure that is already recorded stays.
    pub open spec fn failed(self, status: u32, driver_code: u32) -> BatchedState {
        if self.code != 0 || self.driver != 0 {
            self
        } else {
            BatchedState { code: status, driver: driver_code, ..self }
        }
    }

    /// Winds the work up: frees the tables that are held, last first, one
    /// call at a time, and ends when none is left.
    pub open spec fn cleanup(self) -> (BatchedState, BatchedAction) {
        if self.call.c != 0 {
            (
                BatchedState {
                    phase: BatchedPhase::Freeing,
                    call: GemmBatchedCall { c: 0, ..self.call },
                    ..self
                },
                BatchedAction::Free { address: self.call.c },
            )
        } else if self.call.b != 0 {
            (
                BatchedState {
                    phase: BatchedPhase::Freeing,
                    call: GemmBatchedCall { b: 0, ..self.call },
                    ..self
                },
                BatchedAction::Free { address: self.call.b },
            )
        } else if self.call.a != 0 {
            (
                BatchedState {
                    phase: BatchedPhase::Freeing,
                    call: GemmBatchedCall { a: 0, ..self.call },
                    ..self
                },
                BatchedAction::Free { address: self.call.a },
            )
        } else {
            (BatchedState { phase: BatchedPhase::Done, ..self }, BatchedAction::Finish(self.outcome()))
        }
    }

    /// The state and the action that follow the driver's answer to the
    /// call that the machine waited on.
    ///
    /// Every driver call can end the work. A failed allocation ends it with
    /// the status `AllocationFailed`, a failed copy of a table with
    /// `MappingError`; in both the routine is not run. A failed wait after
    /// a routine that reported success ends it with `ExecutionFailed`.
    /// Where no driver call fails, the result is the translation of the
    /// routine's raw code. In every case the tables that are held are
    /// freed before the work ends, and the raw code of the driver call that
    /// failed is kept in the state. The raw codes of the frees do not
    /// change the result: a failed teardown is for the record only.
    pub open spec fn next(self, reply: DriverReply) -> (BatchedState, BatchedAction) {
        match self.phase {
            BatchedPhase::AllocA => if reply.code != 0 {
                self.failed(allocation_failed(), reply.code).cleanup()
            } else {
                (
                    BatchedState {
                        phase: BatchedPhase::AllocB,
                        call: GemmBatchedCall { a: reply.address, ..self.call },
                        ..self
                    },
                    BatchedAction::Allocate { bytes: self.bytes },
                )
            },
            BatchedPhase::AllocB => if reply.code != 0 {
                self.failed(allocation_failed(), reply.code).cleanup()
            } else {
                (
                    BatchedState {
                        phase: BatchedPhase::AllocC,
                        call: GemmBatchedCall { b: reply.address, ..self.call },
                        ..self
                    },
                    BatchedAction::Allocate { bytes: self.bytes },
                )
            },
            BatchedPhase::AllocC => if reply.code != 0 {
                self.failed(allocation_failed(), reply.code).cleanup()
            } else {
                (
                    BatchedState {
                        phase: BatchedPhase::UploadA,
                        call: GemmBatchedCall { c: reply.address, ..self.call },
                        ..self
                    },
                    BatchedAction::Upload {
                        table: BatchTable::A,
                        dst: self.call.a,
                        bytes: self.bytes,
                    },
                )
            },
            BatchedPhase::UploadA => if reply.code != 0 {
                self.failed(mapping_error(), reply.code).cleanup()
            } else {
                (
                    BatchedState { phase: BatchedPhase::UploadB, ..self },
                    BatchedAction::Upload {
                        table: BatchTable::B,
                        dst: self.call.b,
                        bytes: self.bytes,
                    },
                )
            },
            BatchedPhase::UploadB => if reply.code != 0 {
                self.failed(mapping_error(), reply.code).cleanup()
            } else {
                (
                    BatchedState { phase: BatchedPhase::UploadC, ..self },
                    BatchedAction::Upload {
                        table: BatchTable::C,
                        dst: self.call.c,
                        bytes: self.bytes,
                    },
                )
            },
            BatchedPhase::UploadC => if reply.code != 0 {
                self.failed(mapping_error(), reply.code).cleanup()
            } else {
                (BatchedState { phase: BatchedPhase::Run, ..self }, BatchedAction::Run(self.call))
            },
            BatchedPhase::Run => (
                BatchedState { phase: BatchedPhase::Sync, code: reply.code, ..self },
                BatchedAction::Synchronize,
            ),
            BatchedPhase::Sync => if reply.code != 0 {
                self.failed(execution_failed(), reply.code).cleanup()
            } else {
                self.cleanup()
            },
            BatchedPhase::Freeing => self.cleanup(),
            BatchedPhase::Done => self.cleanup(),
        }
    }

    /// The state and the first action of a batched multiplication.
    ///
    /// A negative count, a host table of fewer addresses than the count, or
    /// a table whose size does not fit the machine word ends the work at
    /// once with the status `InvalidValue`. A count of 0 needs no tables:
    /// the routine runs at once. Otherwise the first table is allocated.
    pub open spec fn start(
        call: GemmBatchedCall,
        a_len: usize,
        b_len: usize,
        c_len: usize,
    ) -> (BatchedState, BatchedAction) {
        let clean = GemmBatchedCall { a: 0, b: 0, c: 0, ..call };
        if !batch_fits(call.batch_count, a_len, b_len, c_len) {
            let state = BatchedState {
                phase: BatchedPhase::Done,
                call: clean,
                bytes: 0,
                code: 3,
                driver: 0,
            };
            (state, BatchedAction::Finish(state.outcome()))
        } else if call.batch_count == 0 {
            (
                BatchedState {
                    phase: BatchedPhase::Run,
                    call: clean,
                    bytes: 0,
                    code: 0,
                    driver: 0,
                },
                BatchedAction::Run(clean),
            )
        } else {
            let bytes = table_bytes(call.batch_count)->Some_0;
            (
                BatchedState {
                    phase: BatchedPhase::AllocA,
                    call: clean,
                    bytes,
                    code: 0,
                    driver: 0,
                },
                BatchedAction::Allocate { bytes },
            )
        }
    }

    /// The machine starts in a state that satisfies the invariant.
    pub proof fn lemma_start_inv(call: GemmBatchedCall, a_len: usize, b_len: usize, c_len: usize)
        ensures
            Self::start(call, a_len, b_len, c_len).0.inv(),
            Self::start(call, a_len, b_len, c_len).0.held() == 0,
    {
    }

    /// Every step keeps the invariant.
    pub proof fn lemma_next_inv(self, reply: DriverReply)
        requires
            self.inv(),
        ensures
            self.next(reply).0.inv(),
    {
    }

    /// Every step before the end brings the end nearer, so the work ends
    /// after a bounded number of calls, whatever the driver answers.
    pub proof fn lemma_progress(self, reply: DriverReply)
        requires
            self.inv(),
            self.phase != BatchedPhase::Done,
        ensures
            self.next(reply).0.measure() < self.measure(),
            self.measure() <= 4 * 9 + 3,
    {
    }

    /// A table is freed only while it is held, and is no longer held once
    /// the call to free it is handed out: no table is freed twice.
    pub proof fn lemma_free_once(self, reply: DriverReply)
        requires
            self.inv(),
            self.next(reply).1 matches BatchedAction::Free { .. },
        ensures
            self.next(reply).1 matches BatchedAction::Free { address } && address != 0 && (address
                == self.call.a || address == self.call.b || address == self.call.c),
            self.held() > 0,
            self.next(reply).0.held() == self.held() - 1,
    {
    }

    /// Each step changes the number of held tables by what it gains and
    /// what it gives back: one more for an allocation that succeeded with
    /// an address, one less for a call to free. As the work starts and ends
    /// with none held, it frees as many tables as it was given.
    pub proof fn lemma_held_balance(self, reply: DriverReply)
        requires
            self.inv(),
        ensures
            self.next(reply).0.held() + (if self.next(reply).1 is Free {
                1nat
            } else {
                0nat
            }) == self.held() + (if (self.phase == BatchedPhase::AllocA || self.phase
                == BatchedPhase::AllocB || self.phase == BatchedPhase::AllocC) && reply.code == 0
                && reply.address != 0 {
                1nat
            } else {
                0nat
            }),
    {
    }

    /// The work ends only when no table is held any more, and its result
    /// is the translation of the raw code that the state holds.
    pub proof fn lemma_finish_holds_nothing(self, reply: DriverReply)
        requires
            self.inv(),
            self.next(reply).1 matches BatchedAction::Finish(_),
        ensures
            self.next(reply).0.held() == 0,
            self.next(reply).0.phase == BatchedPhase::Done,
            self.next(reply).1 == BatchedAction::Finish(self.next(reply).0.outcome()),
    {
    }

    /// The routine is run only on the answer of success to the copy of the
    /// last table, or at the start where there is nothing to copy; it is
    /// run with the tables that are held, and no failure is recorded then.
    pub proof fn lemma_run(self, reply: DriverReply)
        requires
            self.inv(),
            self.next(reply).1 matches BatchedAction::Run(_),
        ensures
            self.phase == BatchedPhase::UploadC,
            reply.code == 0,
            self.next(reply).1 == BatchedAction::Run(self.call),
            self.next(reply).0.phase == BatchedPhase::Run,
            self.next(reply).0.code == 0 && self.next(reply).0.driver == 0,
    {
    }

    /// A driver call that fails before the routine ends the work without
    /// running it: what follows is the free of a held table or the end.
    /// The result is then `AllocationFailed` for an allocation and
    /// `MappingError` for a copy, and the driver's raw code is kept.
    pub proof fn lemma_failed_call_ends_the_work(self, reply: DriverReply)
        requires
            self.inv(),
            reply.code != 0,
            self.before_answer(),
            self.phase != BatchedPhase::Run,
        ensures
            self.next(reply).1 is Free || self.next(reply).1 is Finish,
            !self.next(reply).0.before_answer(),
            self.next(reply).0.driver == reply.code,
            self.next(reply).0.driver_failure() == diagnostic(reply.code),
            self.phase == BatchedPhase::AllocA || self.phase == BatchedPhase::AllocB || self.phase
                == BatchedPhase::AllocC ==> self.next(reply).0.code == allocation_failed(),
            self.phase == BatchedPhase::UploadA || self.phase == BatchedPhase::UploadB
                || self.phase == BatchedPhase::UploadC ==> self.next(reply).0.code
                == mapping_error(),
            self.next(reply).0.outcome() is Err,
    {
    }

    /// The routine's answer decides the result, whatever it is.
    pub proof fn lemma_answer(self, answer: DriverReply)
        requires
            self.inv(),
            self.phase == BatchedPhase::Run,
        ensures
            self.next(answer).0.outcome() == blas_translated((), answer.code),
            self.next(answer).1 == BatchedAction::Synchronize,
            self.next(answer).0.driver == 0,
    {
    }

    /// The wait changes the result in one case only: the routine reported
    /// success and the wait failed. The result is then `ExecutionFailed`
    /// and the driver's raw code is kept.
    pub proof fn lemma_wait(self, reply: DriverReply)
        requires
            self.inv(),
            self.phase == BatchedPhase::Sync,
        ensures
            reply.code == 0 || self.code != 0 ==> self.next(reply).0.code == self.code
                && self.next(reply).0.driver == self.driver,
            reply.code != 0 && self.code == 0 ==> self.next(reply).0.code == execution_failed()
                && self.next(reply).0.driver == reply.code,
    {
    }

    /// No step after the wait changes the result or the driver's code.
    pub proof fn lemma_result_is_kept(self, reply: DriverReply)
        requires
            self.phase == BatchedPhase::Freeing || self.phase == BatchedPhase::Done,
        ensures
            self.next(reply).0.code == self.code,
            self.next(reply).0.driver == self.driver,
    {
    }

    /// The work ends in success only if no driver call was recorded as
    /// failed.
    pub proof fn lemma_success_means_no_failure(self)
        requires
            self.inv(),
            self.outcome() is Ok,
        ensures
            self.driver_failure() is None,
    {
    }
}

/// A batched multiplication in progress. It is made by `gemm_batched` and
/// moved on by `advance`.
#[derive(Debug)]
pub struct BatchedGemm {
    state: BatchedState,
}

impl View for BatchedGemm {
    type V = BatchedState;

    closed spec fn view(&self) -> BatchedState {
        self.state
    }
}

fn cleanup_step(state: BatchedState) -> (out: (BatchedState, BatchedAction))
    ensures
        out == state.cleanup(),
{
    if state.call.c != 0 {
        (
            BatchedState {
                phase: BatchedPhase::Freeing,
                call: GemmBatchedCall { c: 0, ..state.call },
                ..state
            },
            BatchedAction::Free { address: state.call.c },
        )
    } else if state.call.b != 0 {
        (
            BatchedState {
                phase: BatchedPhase::Freeing,
                call: GemmBatchedCall { b: 0, ..state.call },
                ..state
            },
            BatchedAction::Free { address: state.call.b },
        )
    } else if state.call.a != 0 {
        (
            BatchedState {
                phase: BatchedPhase::Freeing,
                call: GemmBatchedCall { a: 0, ..state.call },
                ..state
            },
            BatchedAction::Free { address: state.call.a },
        )
    } else {
        let r: BlasResult<()> = ((), state.code).to_result();
        (BatchedState { phase: BatchedPhase::Done, ..state }, BatchedAction::Finish(r))
    }
}

fn record_failure(state: BatchedState, status: u32, driver_code: u32) -> (out: BatchedState)
    ensures
        out == state.failed(status, driver_code),
{
    if state.code != 0 || state.driver != 0 {
        state
    } else {
        BatchedState { code: status, driver: driver_code, ..state }
    }
}

fn next_step(state: BatchedState, reply: DriverReply) -> (out: (BatchedState, BatchedAction))
    ensures
        out == state.next(reply),
{
    match state.phase {
        BatchedPhase::AllocA => {
            if reply.code != 0 {
                cleanup_step(record_failure(state, 2, reply.code))
            } else {
                (
                    BatchedState {
                        phase: BatchedPhase::AllocB,
                        call: GemmBatchedCall { a: reply.address, ..state.call },
                        ..state
                    },
                    BatchedAction::Allocate { bytes: state.bytes },
                )
            }
        },
        BatchedPhase::AllocB => {
            if reply.code != 0 {
                cleanup_step(record_failure(state, 2, reply.code))
            } else {
                (
                    BatchedState {
                        phase: BatchedPhase::AllocC,
                        call: GemmBatchedCall { b: reply.address, ..state.call },
                        ..state
                    },
                    BatchedAction::Allocate { bytes: state.bytes },
                )
            }
        },
        BatchedPhase::AllocC => {
            if reply.code != 0 {
                cleanup_step(record_failure(state, 2, reply.code))
            } else {
                (
                    BatchedState {
                        phase: BatchedPhase::UploadA,
                        call: GemmBatchedCall { c: reply.address, ..state.call },
                        ..state
                    },
                    BatchedAction::Upload {
                        table: BatchTable::A,
                        dst: state.call.a,
                        bytes: state.bytes,
                    },
                )
            }
        },
        BatchedPhase::UploadA => {
            if reply.code != 0 {
                cleanup_step(record_failure(state, 4, reply.code))
            } else {
                (
                    BatchedState { phase: BatchedPhase::UploadB, ..state },
                    BatchedAction::Upload {
                        table: BatchTable::B,
                        dst: state.call.b,
                        bytes: state.bytes,
                    },
                )
            }
        },
        BatchedPhase::UploadB => {
            if reply.code != 0 {
                cleanup_step(record_failure(state, 4, reply.code))
            } else {
                (
                    BatchedState { phase: BatchedPhase::UploadC, ..state },
                    BatchedAction::Upload {
                        table: BatchTable::C,
                        dst: state.call.c,
                        bytes: state.bytes,
                    },
                )
            }
        },
        BatchedPhase::UploadC => {
            if reply.code != 0 {
                cleanup_step(record_failure(state, 4, reply.code))
            } else {
                (BatchedState { phase: BatchedPhase::Run, ..state }, BatchedAction::Run(state.call))
            }
        },
        BatchedPhase::Run => (
            BatchedState { phase: BatchedPhase::Sync, code: reply.code, ..state },
            BatchedAction::Synchronize,
        ),
        BatchedPhase::Sync => {
            if reply.code != 0 {
                cleanup_step(record_failure(state, 5, reply.code))
            } else {
                cleanup_step(state)
            }
        },
        BatchedPhase::Freeing => cleanup_step(state),
        BatchedPhase::Done => cleanup_step(state),
    }
}

/// The size in bytes of a table of `batch_count` addresses, if it has one.
pub fn table_size(batch_count: i32) -> (bytes: Option<usize>)
    ensures
        bytes == table_bytes(batch_count),
{
    if batch_count < 0 {
        return None;
    }
    let word: usize = std::mem::size_of::<usize>();
    let count: usize = batch_count as usize;
    if word != 0 && count > usize::MAX / word {
        assert(batch_count * size_of::<usize>() > usize::MAX) by (nonlinear_arith)
            requires
                word == size_of::<usize>(),
                word > 0,
                batch_count == count,
                count > usize::MAX / word,
        ;
        return None;
    }
    assert(count * word <= usize::MAX) by (nonlinear_arith)
        requires
            word == 0 || count <= usize::MAX / word,
            0 <= count,
            0 <= word,
    ;
    Some(count * word)
}

/// Starts a batched multiplication `C[i] = alpha * op(A[i]) * op(B[i]) +
/// beta * C[i]` for `batch_count` products. `a_len`, `b_len` and `c_len`
/// are the lengths of the three host tables. The result is the machine and
/// the first action; the caller does what the action says and hands the
/// driver's answer to `advance`, until the action is `Finish`.
pub fn gemm_batched(
    handle: &BlasHandle,
    trans_a: Operation,
    trans_b: Operation,
    m: i32,
    n: i32,
    k: i32,
    a_len: usize,
    lda: i32,
    b_len: usize,
    ldb: i32,
    c_len: usize,
    ldc: i32,
    batch_count: i32,
) -> (out: (BatchedGemm, BatchedAction))
    ensures
        (out.0@, out.1) == BatchedState::start(
            GemmBatchedCall {
                handle: handle@,
                trans_a: trans_a.raw(),
                trans_b: trans_b.raw(),
                m,
                n,
                k,
                a: 0,
                lda,
                b: 0,
                ldb,
                c: 0,
                ldc,
                batch_count,
            },
            a_len,
            b_len,
            c_len,
        ),
        out.0@.inv(),
{
    let call = GemmBatchedCall {
        handle: handle.handle(),
        trans_a: trans_a.to_raw(),
        trans_b: trans_b.to_raw(),
        m,
        n,
        k,
        a: 0,
        lda,
        b: 0,
        ldb,
        c: 0,
        ldc,
        batch_count,
    };
    let fits = match table_size(batch_count) {
        None => None,
        Some(bytes) => {
            let count: usize = batch_count as usize;
            if count <= a_len && count <= b_len && count <= c_len {
                Some(bytes)
            } else {
                None
            }
        },
    };
    match fits {
        None => {
            let state = BatchedState {
                phase: BatchedPhase::Done,
                call,
                bytes: 0,
                code: 3,
                driver: 0,
            };
            let r: BlasResult<()> = ((), 3u32).to_result();
            (BatchedGemm { state }, BatchedAction::Finish(r))
        },
        Some(bytes) => {
            if batch_count == 0 {
                let state = BatchedState {
                    phase: BatchedPhase::Run,
                    call,
                    bytes: 0,
                    code: 0,
                    driver: 0,
                };
                (BatchedGemm { state }, BatchedAction::Run(call))
            } else {
                let state = BatchedState {
                    phase: BatchedPhase::AllocA,
                    call,
                    bytes,
                    code: 0,
                    driver: 0,
                };
                (BatchedGemm { state }, BatchedAction::Allocate { bytes })
            }
        },
    }
}

impl BatchedGemm {
    #[verifier::type_invariant]
    closed spec fn wf(self) -> bool {
        self.state.inv()
    }

    /// Takes the driver's answer to the call that was handed out last and
    /// gives the next action. After `Finish` every further answer gives
    /// `Finish` with the same result.
    pub fn advance(self, reply: DriverReply) -> (out: (BatchedGemm, BatchedAction))
        ensures
            (out.0@, out.1) == self@.next(reply),
            self@.inv(),
            out.0@.inv(),
    {
        proof {
            use_type_invariant(&self);
            self.state.lemma_next_inv(reply);
        }
        let (state, action) = next_step(self.state, reply);
        (BatchedGemm { state }, action)
    }

    /// The classified error of the first driver call that failed, with its
    /// raw code: the failed allocation, copy or wait that the result stands
    /// for. `None` where no driver call failed.
    pub fn driver_failure(&self) -> (failure: Option<HipError>)
        ensures
            failure == self@.driver_failure(),
    {
        teardown_diagnostic(self.state.driver)
    }

    /// Whether the work has ended.
    pub fn is_done(&self) -> (done: bool)
        ensures
            done == (self@.phase == BatchedPhase::Done),
    {
        self.state.phase == BatchedPhase::Done
    }
}

} // verus!
