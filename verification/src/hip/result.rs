//! Statuses of the device family of driver calls.

use vstd::prelude::*;
use crate::result::{translated, ResultExt, StatusCode};

verus! {

/// A named status of the device family. `Unknown` stands for every raw
/// code that the table does not hold.
#[derive(Debug, Clone, Copy, PartialEq, Eq, Structural)]
pub enum HipStatus {
    Success,
    InvalidValue,
    MemoryAllocation,
    NotInitialized,
    Deinitialized,
    InvalidDevice,
    FileNotFound,
    NotReady,
    NotSupported,
    Unknown,
}

impl HipStatus {
    /// The status that a raw code decodes to.
    pub open spec fn decode(code: u32) -> HipStatus {
        if code == 0 {
            HipStatus::Success
        } else if code == 1 {
            HipStatus::InvalidValue
        } else if code == 2 {
            HipStatus::MemoryAllocation
        } else if code == 3 {
            HipStatus::NotInitialized
        } else if code == 4 {
            HipStatus::Deinitialized
        } else if code == 101 {
            HipStatus::InvalidDevice
        } else if code == 301 {
            HipStatus::FileNotFound
        } else if code == 600 {
            HipStatus::NotReady
        } else if code == 801 {
            HipStatus::NotSupported
        } else {
            HipStatus::Unknown
        }
    }

    /// The raw code that stands for a status; `Unknown` has 999.
    pub open spec fn raw(self) -> u32 {
        match self {
            HipStatus::Success => 0,
            HipStatus::InvalidValue => 1,
            HipStatus::MemoryAllocation => 2,
            HipStatus::NotInitialized => 3,
            HipStatus::Deinitialized => 4,
            HipStatus::InvalidDevice => 101,
            HipStatus::FileNotFound => 301,
            HipStatus::NotReady => 600,
            HipStatus::NotSupported => 801,
            HipStatus::Unknown => 999,
        }
    }

    /// The name of a status.
    pub open spec fn name(self) -> Seq<char> {
        match self {
            HipStatus::Success => "Success"@,
            HipStatus::InvalidValue => "InvalidValue"@,
            HipStatus::MemoryAllocation => "MemoryAllocation"@,
            HipStatus::NotInitialized => "NotInitialized"@,
            HipStatus::Deinitialized => "Deinitialized"@,
            HipStatus::InvalidDevice => "InvalidDevice"@,
            HipStatus::FileNotFound => "FileNotFound"@,
            HipStatus::NotReady => "NotReady"@,
            HipStatus::NotSupported => "NotSupported"@,
            HipStatus::Unknown => "Unknown"@,
        }
    }

    /// Decodes a raw code. Every code has a status: one outside the table
    /// is `Unknown`.
    pub fn from(status: u32) -> (s: Self)
        ensures
            s == Self::decode(status),
    {
        match status {
            0 => HipStatus::Success,
            1 => HipStatus::InvalidValue,
            2 => HipStatus::MemoryAllocation,
            3 => HipStatus::NotInitialized,
            4 => HipStatus::Deinitialized,
            101 => HipStatus::InvalidDevice,
            301 => HipStatus::FileNotFound,
            600 => HipStatus::NotReady,
            801 => HipStatus::NotSupported,
            _ => HipStatus::Unknown,
        }
    }

    /// The raw code of a status.
    pub fn to_raw(self) -> (code: u32)
        ensures
            code == self.raw(),
    {
        match self {
            HipStatus::Success => 0,
            HipStatus::InvalidValue => 1,
            HipStatus::MemoryAllocation => 2,
            HipStatus::NotInitialized => 3,
            HipStatus::Deinitialized => 4,
            HipStatus::InvalidDevice => 101,
            HipStatus::FileNotFound => 301,
            HipStatus::NotReady => 600,
            HipStatus::NotSupported => 801,
            HipStatus::Unknown => 999,
        }
    }

    /// Decoding the raw code of a status gives the status back.
    pub proof fn lemma_decode_raw(status: HipStatus)
        ensures
            Self::decode(status.raw()) == status,
    {
    }

    /// Only the code 0 decodes to `Success`.
    pub proof fn lemma_success_is_zero(code: u32)
        ensures
            Self::decode(code) == HipStatus::Success <==> code == 0,
    {
    }
}

/// A classified error: the decoded status and the raw code it came from.
#[derive(Debug, Clone, Copy, PartialEq, Eq, Structural)]
pub struct HipError {
    pub status: HipStatus,
    pub code: u32,
}

impl HipError {
    /// The status is the decoded form of the raw code.
    pub open spec fn wf(self) -> bool {
        self.status == HipStatus::decode(self.code)
    }

    /// Classifies a raw code, which is kept beside its status.
    pub fn new(code: u32) -> (e: Self)
        ensures
            e == (HipError { status: HipStatus::decode(code), code }),
            e.wf(),
    {
        Self { status: HipStatus::from(code), code }
    }

    /// The error of a status, with the raw code of that status.
    pub fn from_status(status: HipStatus) -> (e: Self)
        ensures
            e == (HipError { status, code: status.raw() }),
            e.wf(),
    {
        Self { status, code: status.to_raw() }
    }
}

impl StatusCode for HipError {
    open spec fn success(&self) -> bool {
        self.status == HipStatus::Success
    }

    open spec fn raw_code(&self) -> u32 {
        self.code
    }

    open spec fn kind_name(&self) -> Seq<char> {
        "HIP"@
    }

    open spec fn status_name(&self) -> Seq<char> {
        self.status.name()
    }

    fn is_success(&self) -> (ok: bool) {
        self.status == HipStatus::Success
    }

    fn code(&self) -> (c: u32) {
        self.code
    }

    fn kind_str(&self) -> (s: &'static str) {
        "HIP"
    }

    fn status_str(&self) -> (s: &'static str) {
        match self.status {
            HipStatus::Success => "Success",
            HipStatus::InvalidValue => "InvalidValue",
            HipStatus::MemoryAllocation => "MemoryAllocation",
            HipStatus::NotInitialized => "NotInitialized",
            HipStatus::Deinitialized => "Deinitialized",
            HipStatus::InvalidDevice => "InvalidDevice",
            HipStatus::FileNotFound => "FileNotFound",
            HipStatus::NotReady => "NotReady",
            HipStatus::NotSupported => "NotSupported",
            HipStatus::Unknown => "Unknown",
        }
    }
}

pub type HipResult<T> = Result<T, HipError>;

/// The classified error of a raw code: its decoded status, and the code
/// itself.
pub open spec fn classified(code: u32) -> HipError {
    HipError { status: HipStatus::decode(code), code }
}

/// What a candidate value and a raw code of the device family translate
/// to: the value unchanged for code 0, else the classified error, which
/// keeps the code.
pub open spec fn hip_translated<T>(value: T, code: u32) -> Result<T, HipError> {
    if code == 0 {
        Ok(value)
    } else {
        Err(classified(code))
    }
}

/// What is recorded of a teardown call: nothing for code 0, else the
/// classified error with the raw code. A failed teardown is never raised.
pub open spec fn diagnostic(code: u32) -> Option<HipError> {
    if code == 0 {
        None
    } else {
        Some(classified(code))
    }
}

/// Classifies the raw code of a teardown call for the record.
pub fn teardown_diagnostic(code: u32) -> (failure: Option<HipError>)
    ensures
        failure == diagnostic(code),
{
    if code != 0 {
        Some(HipError::new(code))
    } else {
        None
    }
}

impl<T> ResultExt<T, HipError> for (T, u32) {
    open spec fn outcome(self) -> Result<T, HipError> {
        hip_translated(self.0, self.1)
    }

    fn to_result(self) -> (r: Result<T, HipError>) {
        let (value, status) = self;
        (value, HipError::new(status)).to_result()
    }
}

/// A call that fails is classified by the table and keeps its raw code,
/// whatever the candidate value was: the value is not in the result.
pub proof fn lemma_failure_is_classified<T>(value: T, code: u32)
    requires
        code != 0,
    ensures
        hip_translated(value, code) == Err::<T, HipError>(classified(code)),
        classified(code).status == HipStatus::decode(code),
        classified(code).code == code,
        <(T, u32) as ResultExt<T, HipError>>::outcome((value, code)) == Err::<T, HipError>(classified(code)),
{
}

/// A call that succeeds hands the candidate value back unchanged.
pub proof fn lemma_success_is_identity<T>(value: T)
    ensures
        hip_translated(value, 0) == Ok::<T, HipError>(value),
        <(T, u32) as ResultExt<T, HipError>>::outcome((value, 0u32)) == Ok::<T, HipError>(value),
{
}

/// Translating a value with a raw code is translating it with the
/// classified status of that code.
pub proof fn lemma_translation_agrees<T>(value: T, code: u32)
    ensures
        translated(value, classified(code)) == hip_translated(value, code),
{
}

/// Every error that translation gives holds the decoded form of its raw
/// code, and none of them stands for success.
pub proof fn lemma_translated_error_wf<T>(value: T, code: u32)
    ensures
        hip_translated(value, code) matches Err(e) ==> e.wf() && e.code == code && e.status
            != HipStatus::Success,
{
}

} // verus!
