//! Statuses of the runtime family of driver calls.

use vstd::prelude::*;
use crate::text::{decimal, push_decimal, push_text};

verus! {

/// The one status of success.
#[derive(Debug, Clone, Copy, PartialEq, Eq, Structural)]
pub enum HipSuccess {
    Success,
}

impl HipSuccess {
    /// The raw code that stands for success, which is 0.
    pub open spec fn raw(self) -> u32 {
        0
    }

    /// The status of success.
    pub fn new() -> (s: Self)
        ensures
            s == HipSuccess::Success,
    {
        HipSuccess::Success
    }

    /// The raw code of success.
    pub fn to_raw(self) -> (code: u32)
        ensures
            code == self.raw(),
            code == 0,
    {
        0
    }
}

/// A named failure of the runtime family. Success is no kind of failure;
/// `Unknown` stands for every raw code that the table does not hold.
#[derive(Debug, Clone, Copy, PartialEq, Eq, Structural)]
pub enum HipErrorKind {
    InvalidValue,
    ErrorMemoryAllocation,
    DeviceAlreadyInUse,
    Deinitialized,
    InvalidDevice,
    FileNotFound,
    Unknown,
}

impl HipErrorKind {
    /// The kind that a raw code decodes to.
    pub open spec fn decode(code: u32) -> HipErrorKind {
        if code == 1 {
            HipErrorKind::InvalidValue
        } else if code == 2 {
            HipErrorKind::ErrorMemoryAllocation
        } else if code == 3 {
            HipErrorKind::DeviceAlreadyInUse
        } else if code == 4 {
            HipErrorKind::Deinitialized
        } else if code == 101 {
            HipErrorKind::InvalidDevice
        } else if code == 301 {
            HipErrorKind::FileNotFound
        } else {
            HipErrorKind::Unknown
        }
    }

    /// The raw code that stands for a kind; `Unknown` has 999.
    pub open spec fn raw(self) -> u32 {
        match self {
            HipErrorKind::InvalidValue => 1,
            HipErrorKind::ErrorMemoryAllocation => 2,
            HipErrorKind::DeviceAlreadyInUse => 3,
            HipErrorKind::Deinitialized => 4,
            HipErrorKind::InvalidDevice => 101,
            HipErrorKind::FileNotFound => 301,
            HipErrorKind::Unknown => 999,
        }
    }

    /// The name of a kind.
    pub open spec fn name(self) -> Seq<char> {
        match self {
            HipErrorKind::InvalidValue => "InvalidValue"@,
            HipErrorKind::ErrorMemoryAllocation => "ErrorMemoryAllocation"@,
            HipErrorKind::DeviceAlreadyInUse => "DeviceAlreadyInUse"@,
            HipErrorKind::Deinitialized => "Deinitialized"@,
            HipErrorKind::InvalidDevice => "InvalidDevice"@,
            HipErrorKind::FileNotFound => "FileNotFound"@,
            HipErrorKind::Unknown => "Unknown"@,
        }
    }

    /// Decodes a raw code. Every code has a kind: one outside the table is
    /// `Unknown`.
    pub fn from_raw(error: u32) -> (kind: Self)
        ensures
            kind == Self::decode(error),
    {
        match error {
            1 => HipErrorKind::InvalidValue,
            2 => HipErrorKind::ErrorMemoryAllocation,
            3 => HipErrorKind::DeviceAlreadyInUse,
            4 => HipErrorKind::Deinitialized,
            101 => HipErrorKind::InvalidDevice,
            301 => HipErrorKind::FileNotFound,
            _ => HipErrorKind::Unknown,
        }
    }

    /// The raw code of a kind.
    pub fn to_raw(self) -> (code: u32)
        ensures
            code == self.raw(),
    {
        match self {
            HipErrorKind::InvalidValue => 1,
            HipErrorKind::ErrorMemoryAllocation => 2,
            HipErrorKind::DeviceAlreadyInUse => 3,
            HipErrorKind::Deinitialized => 4,
            HipErrorKind::InvalidDevice => 101,
            HipErrorKind::FileNotFound => 301,
            HipErrorKind::Unknown => 999,
        }
    }

    fn name_str(self) -> (s: &'static str)
        ensures
            s@ == self.name(),
    {
        match self {
            HipErrorKind::InvalidValue => "InvalidValue",
            HipErrorKind::ErrorMemoryAllocation => "ErrorMemoryAllocation",
            HipErrorKind::DeviceAlreadyInUse => "DeviceAlreadyInUse",
            HipErrorKind::Deinitialized => "Deinitialized",
            HipErrorKind::InvalidDevice => "InvalidDevice",
            HipErrorKind::FileNotFound => "FileNotFound",
            HipErrorKind::Unknown => "Unknown",
        }
    }

    /// Decoding the raw code of a kind gives the kind back.
    pub proof fn lemma_decode_raw(kind: HipErrorKind)
        ensures
            Self::decode(kind.raw()) == kind,
    {
    }
}

/// A classified error: the decoded kind and the raw code it came from.
#[derive(Debug, Clone, Copy, PartialEq, Eq, Structural)]
pub struct HipError {
    pub kind: HipErrorKind,
    pub code: u32,
}

impl HipError {
    /// The kind is the decoded form of the raw code.
    pub open spec fn wf(self) -> bool {
        self.kind == HipErrorKind::decode(self.code)
    }

    /// Classifies a raw code, which is kept beside its kind.
    pub fn new(code: u32) -> (e: Self)
        ensures
            e == (HipError { kind: HipErrorKind::decode(code), code }),
            e.wf(),
    {
        Self { kind: HipErrorKind::from_raw(code), code }
    }

    /// The error of a kind, with the raw code of that kind.
    pub fn from_kind(kind: HipErrorKind) -> (e: Self)
        ensures
            e == (HipError { kind, code: kind.raw() }),
            e.wf(),
    {
        Self { kind, code: kind.to_raw() }
    }

    /// The text of an error: `HIP error: <kind> (code: <raw code>)`.
    pub open spec fn text(self) -> Seq<char> {
        "HIP error: "@ + self.kind.name() + " (code: "@ + decimal(self.code as nat) + ")"@
    }

    /// Describes the error by its kind and raw code.
    pub fn to_string(&self) -> (s: String)
        ensures
            s@ == self.text(),
    {
        let mut out = String::new();
        push_text(&mut out, "HIP error: ");
        push_text(&mut out, self.kind.name_str());
        push_text(&mut out, " (code: ");
        push_decimal(&mut out, self.code as u64);
        push_text(&mut out, ")");
        assert(out@ =~= self.text());
        out
    }
}

pub type Result<T> = std::result::Result<T, HipError>;

/// What a candidate value and a raw code of the runtime family translate
/// to: the value unchanged for code 0, else the classified error, which
/// keeps the code.
pub open spec fn runtime_translated<T>(value: T, code: u32) -> Result<T> {
    if code == 0 {
        Ok(value)
    } else {
        Err(HipError { kind: HipErrorKind::decode(code), code })
    }
}

/// Conversion of a raw call outcome of the runtime family into a `Result`.
pub trait HipResult: Sized {
    /// The type of the candidate value.
    type Value;

    /// The result that this outcome stands for.
    spec fn outcome(self) -> Result<Self::Value>;

    fn to_result(self) -> (r: Result<Self::Value>)
        ensures
            r == self.outcome(),
    ;
}

impl<T> HipResult for (T, u32) {
    type Value = T;

    open spec fn outcome(self) -> Result<T> {
        runtime_translated(self.0, self.1)
    }

    fn to_result(self) -> (r: Result<T>) {
        let (value, code) = self;
        match code {
            0 => Ok(value),
            _ => Err(HipError::new(code)),
        }
    }
}

/// A call that fails is classified by the table and keeps its raw code,
/// whatever the candidate value was: the value is not in the result.
pub proof fn lemma_failure_is_classified<T>(value: T, code: u32)
    requires
        code != 0,
    ensures
        runtime_translated(value, code) == Err::<T, HipError>(
            HipError { kind: HipErrorKind::decode(code), code },
        ),
        (value, code).outcome() == runtime_translated(value, code),
{
}

/// A call that succeeds hands the candidate value back unchanged.
pub proof fn lemma_success_is_identity<T>(value: T)
    ensures
        runtime_translated(value, 0) == Ok::<T, HipError>(value),
        (value, 0u32).outcome() == Ok::<T, HipError>(value),
{
}

/// Every error that translation gives holds the decoded form of its raw
/// code.
pub proof fn lemma_translated_error_wf<T>(value: T, code: u32)
    ensures
        runtime_translated(value, code) matches Err(e) ==> e.wf() && e.code == code,
{
}

} // verus!
