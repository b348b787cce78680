//! Small types of the linear-algebra family.

use vstd::prelude::*;

verus! {

/// How a matrix is taken by a routine.
#[derive(Debug, Clone, Copy, PartialEq, Eq, Structural)]
pub enum Operation {
    /// The matrix as it is.
    NoTranspose,
    /// The transposed matrix.
    Transpose,
    /// The conjugate transpose of the matrix.
    Conjugate,
}

impl Operation {
    /// The raw code of an operation.
    pub open spec fn raw(self) -> u32 {
        match self {
            Operation::NoTranspose => 111,
            Operation::Transpose => 112,
            Operation::Conjugate => 113,
        }
    }

    /// The raw code of an operation.
    pub fn to_raw(self) -> (code: u32)
        ensures
            code == self.raw(),
    {
        match self {
            Operation::NoTranspose => 111,
            Operation::Transpose => 112,
            Operation::Conjugate => 113,
        }
    }
}

impl From<Operation> for u32 {
    fn from(op: Operation) -> (code: u32) {
        op.to_raw()
    }
}

impl vstd::std_specs::convert::FromSpecImpl<Operation> for u32 {
    open spec fn obeys_from_spec() -> bool {
        true
    }

    open spec fn from_spec(op: Operation) -> u32 {
        op.raw()
    }
}

/// A status of the linear-algebra library by name alone. `Unknown` stands
/// for every raw code that the table does not hold.
#[derive(Debug, Clone, Copy, PartialEq, Eq, Structural)]
pub enum Status {
    Success,
    NotInitialized,
    AllocationFailed,
    InvalidValue,
    MappingError,
    ExecutionFailed,
    InternalError,
    NotSupported,
    ArchMismatch,
    HandleIsNullPointer,
    InvalidEnum,
    Unknown,
}

impl Status {
    /// The status that a raw code decodes to.
    pub open spec fn decode(code: u32) -> Status {
        if code == 0 {
            Status::Success
        } else if code == 1 {
            Status::NotInitialized
        } else if code == 2 {
            Status::AllocationFailed
        } else if code == 3 {
            Status::InvalidValue
        } else if code == 4 {
            Status::MappingError
        } else if code == 5 {
            Status::ExecutionFailed
        } else if code == 6 {
            Status::InternalError
        } else if code == 7 {
            Status::NotSupported
        } else if code == 8 {
            Status::ArchMismatch
        } else if code == 9 {
            Status::HandleIsNullPointer
        } else if code == 10 {
            Status::InvalidEnum
        } else {
            Status::Unknown
        }
    }
}

impl From<u32> for Status {
    fn from(status: u32) -> (s: Status) {
        match status {
            0 => Status::Success,
            1 => Status::NotInitialized,
            2 => Status::AllocationFailed,
            3 => Status::InvalidValue,
            4 => Status::MappingError,
            5 => Status::ExecutionFailed,
            6 => Status::InternalError,
            7 => Status::NotSupported,
            8 => Status::ArchMismatch,
            9 => Status::HandleIsNullPointer,
            10 => Status::InvalidEnum,
            _ => Status::Unknown,
        }
    }
}

impl vstd::std_specs::convert::FromSpecImpl<u32> for Status {
    open spec fn obeys_from_spec() -> bool {
        true
    }

    open spec fn from_spec(status: u32) -> Status {
        Status::decode(status)
    }
}

} // verus!
