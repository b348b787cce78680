//! Statuses of the linear-algebra family of driver calls.

use vstd::prelude::*;
use crate::result::{translated, ResultExt, StatusCode};

verus! {

/// A named status of the linear-algebra family. `Unknown` stands for every
/// raw code that the table does not hold.
#[derive(Debug, Clone, Copy, PartialEq, Eq, Structural)]
pub enum BlasStatus {
    Success,
    NotInitialized,
    AllocationFailed,
    InvalidValue,
    MappingError,
    ExecutionFailed,
    InternalError,
    NotSupported,
    ArchMismatch,
    HandleIsNullPointer,
    InvalidEnum,
    Unknown,
}

impl BlasStatus {
    /// The status that a raw code decodes to.
    pub open spec fn decode(code: u32) -> BlasStatus {
        if code == 0 {
            BlasStatus::Success
        } else if code == 1 {
            BlasStatus::NotInitialized
        } else if code == 2 {
            BlasStatus::AllocationFailed
        } else if code == 3 {
            BlasStatus::InvalidValue
        } else if code == 4 {
            BlasStatus::MappingError
        } else if code == 5 {
            BlasStatus::ExecutionFailed
        } else if code == 6 {
            BlasStatus::InternalError
        } else if code == 7 {
            BlasStatus::NotSupported
        } else if code == 8 {
            BlasStatus::ArchMismatch
        } else if code == 9 {
            BlasStatus::HandleIsNullPointer
        } else if code == 10 {
            BlasStatus::InvalidEnum
        } else {
            BlasStatus::Unknown
        }
    }

    /// The raw code that stands for a status; `Unknown` has 11.
    pub open spec fn raw(self) -> u32 {
        match self {
            BlasStatus::Success => 0,
            BlasStatus::NotInitialized => 1,
            BlasStatus::AllocationFailed => 2,
            BlasStatus::InvalidValue => 3,
            BlasStatus::MappingError => 4,
            BlasStatus::ExecutionFailed => 5,
            BlasStatus::InternalError => 6,
            BlasStatus::NotSupported => 7,
            BlasStatus::ArchMismatch => 8,
            BlasStatus::HandleIsNullPointer => 9,
            BlasStatus::InvalidEnum => 10,
            BlasStatus::Unknown => 11,
        }
    }

    /// The name of a status.
    pub open spec fn name(self) -> Seq<char> {
        match self {
            BlasStatus::Success => "Success"@,
            BlasStatus::NotInitialized => "NotInitialized"@,
            BlasStatus::AllocationFailed => "AllocationFailed"@,
            BlasStatus::InvalidValue => "InvalidValue"@,
            BlasStatus::MappingError => "MappingError"@,
            BlasStatus::ExecutionFailed => "ExecutionFailed"@,
            BlasStatus::InternalError => "InternalError"@,
            BlasStatus::NotSupported => "NotSupported"@,
            BlasStatus::ArchMismatch => "ArchMismatch"@,
            BlasStatus::HandleIsNullPointer => "HandleIsNullPointer"@,
            BlasStatus::InvalidEnum => "InvalidEnum"@,
            BlasStatus::Unknown => "Unknown"@,
        }
    }

    /// Decodes a raw code. Every code has a status: one outside the table
    /// is `Unknown`.
    pub fn from(status: u32) -> (s: Self)
        ensures
            s == Self::decode(status),
    {
        match status {
            0 => BlasStatus::Success,
            1 => BlasStatus::NotInitialized,
            2 => BlasStatus::AllocationFailed,
            3 => BlasStatus::InvalidValue,
            4 => BlasStatus::MappingError,
            5 => BlasStatus::ExecutionFailed,
            6 => BlasStatus::InternalError,
            7 => BlasStatus::NotSupported,
            8 => BlasStatus::ArchMismatch,
            9 => BlasStatus::HandleIsNullPointer,
            10 => BlasStatus::InvalidEnum,
            _ => BlasStatus::Unknown,
        }
    }

    /// The raw code of a status.
    pub fn to_raw(self) -> (code: u32)
        ensures
            code == self.raw(),
    {
        match self {
            BlasStatus::Success => 0,
            BlasStatus::NotInitialized => 1,
            BlasStatus::AllocationFailed => 2,
            BlasStatus::InvalidValue => 3,
            BlasStatus::MappingError => 4,
            BlasStatus::ExecutionFailed => 5,
            BlasStatus::InternalError => 6,
            BlasStatus::NotSupported => 7,
            BlasStatus::ArchMismatch => 8,
            BlasStatus::HandleIsNullPointer => 9,
            BlasStatus::InvalidEnum => 10,
            BlasStatus::Unknown => 11,
        }
    }

    /// Decoding the raw code of a status gives the status back.
    pub proof fn lemma_decode_raw(status: BlasStatus)
        ensures
            Self::decode(status.raw()) == status,
    {
    }

    /// Only the code 0 decodes to `Success`.
    pub proof fn lemma_success_is_zero(code: u32)
        ensures
            Self::decode(code) == BlasStatus::Success <==> code == 0,
    {
    }
}

/// A classified error: the decoded status and the raw code it came from.
#[derive(Debug, Clone, Copy, PartialEq, Eq, Structural)]
pub struct BlasError {
    pub status: BlasStatus,
    pub code: u32,
}

impl BlasError {
    /// The status is the decoded form of the raw code.
    pub open spec fn wf(self) -> bool {
        self.status == BlasStatus::decode(self.code)
    }

    /// Classifies a raw code, which is kept beside its status.
    pub fn new(code: u32) -> (e: Self)
        ensures
            e == (BlasError { status: BlasStatus::decode(code), code }),
            e.wf(),
    {
        Self { status: BlasStatus::from(code), code }
    }

    /// The error of a status, with the raw code of that status.
    pub fn from_status(status: BlasStatus) -> (e: Self)
        ensures
            e == (BlasError { status, code: status.raw() }),
            e.wf(),
    {
        Self { status, code: status.to_raw() }
    }
}

impl StatusCode for BlasError {
    open spec fn success(&self) -> bool {
        self.status == BlasStatus::Success
    }

    open spec fn raw_code(&self) -> u32 {
        self.code
    }

    open spec fn kind_name(&self) -> Seq<char> {
        "HIPBLAS"@
    }

    open spec fn status_name(&self) -> Seq<char> {
        self.status.name()
    }

    fn is_success(&self) -> (ok: bool) {
        self.status == BlasStatus::Success
    }

    fn code(&self) -> (c: u32) {
        self.code
    }

    fn kind_str(&self) -> (s: &'static str) {
        "HIPBLAS"
    }

    fn status_str(&self) -> (s: &'static str) {
        match self.status {
            BlasStatus::Success => "Success",
            BlasStatus::NotInitialized => "NotInitialized",
            BlasStatus::AllocationFailed => "AllocationFailed",
            BlasStatus::InvalidValue => "InvalidValue",
            BlasStatus::MappingError => "MappingError",
            BlasStatus::ExecutionFailed => "ExecutionFailed",
            BlasStatus::InternalError => "InternalError",
            BlasStatus::NotSupported => "NotSupported",
            BlasStatus::ArchMismatch => "ArchMismatch",
            BlasStatus::HandleIsNullPointer => "HandleIsNullPointer",
            BlasStatus::InvalidEnum => "InvalidEnum",
            BlasStatus::Unknown => "Unknown",
        }
    }
}

pub type BlasResult<T> = Result<T, BlasError>;

/// What a candidate value and a raw code of the linear-algebra family
/// translate to: the value unchanged for code 0, else the classified
/// error, which keeps the code.
pub open spec fn blas_translated<T>(value: T, code: u32) -> Result<T, BlasError> {
    if code == 0 {
        Ok(value)
    } else {
        Err(blas_classified(code))
    }
}

impl<T> ResultExt<T, BlasError> for (T, u32) {
    open spec fn outcome(self) -> Result<T, BlasError> {
        blas_translated(self.0, self.1)
    }

    fn to_result(self) -> (r: Result<T, BlasError>) {
        let (value, status) = self;
        (value, BlasError::new(status)).to_result()
    }
}

/// The classified error of a raw code: its decoded status, and the code
/// itself.
pub open spec fn blas_classified(code: u32) -> BlasError {
    BlasError { status: BlasStatus::decode(code), code }
}

/// A call that fails is classified by the table and keeps its raw code,
/// whatever the candidate value was: the value is not in the result.
pub proof fn lemma_failure_is_classified<T>(value: T, code: u32)
    requires
        code != 0,
    ensures
        blas_translated(value, code) == Err::<T, BlasError>(blas_classified(code)),
        blas_classified(code).status == BlasStatus::decode(code),
        blas_classified(code).code == code,
        <(T, u32) as ResultExt<T, BlasError>>::outcome((value, code)) == Err::<T, BlasError>(blas_classified(code)),
{
}

/// A call that succeeds hands the candidate value back unchanged.
pub proof fn lemma_success_is_identity<T>(value: T)
    ensures
        blas_translated(value, 0) == Ok::<T, BlasError>(value),
        <(T, u32) as ResultExt<T, BlasError>>::outcome((value, 0u32)) == Ok::<T, BlasError>(value),
{
}

/// Translating a value with a raw code is translating it with the
/// classified status of that code.
pub proof fn lemma_translation_agrees<T>(value: T, code: u32)
    ensures
        translated(value, blas_classified(code)) == blas_translated(value, code),
{
}

/// Every error that translation gives holds the decoded form of its raw
/// code, and none of them stands for success.
pub proof fn lemma_translated_error_wf<T>(value: T, code: u32)
    ensures
        blas_translated(value, code) matches Err(e) ==> e.wf() && e.code == code && e.status
            != BlasStatus::Success,
{
}

} // verus!
