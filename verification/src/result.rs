//! Translation of a raw call outcome into a `Result`.

use vstd::prelude::*;
use crate::text::{decimal, push_decimal, push_text};

verus! {

/// The text that describes a status: family, name and raw code.
pub open spec fn status_text(kind: Seq<char>, status: Seq<char>, code: u32) -> Seq<char> {
    kind + " status: "@ + status + " (code: "@ + decimal(code as nat) + ")"@
}

/// A status that a family of driver calls reports.
///
/// The four spec functions say what the four methods return. Each has a
/// default that leaves its value open, so that an implementation outside
/// verified code can be written with the methods alone; a verified
/// implementation defines all four.
pub trait StatusCode {
    /// Whether the status stands for success.
    open spec fn success(&self) -> bool {
        arbitrary()
    }

    /// The integer that the driver returned.
    open spec fn raw_code(&self) -> u32 {
        arbitrary()
    }

    /// The name of the family of calls.
    open spec fn kind_name(&self) -> Seq<char> {
        arbitrary()
    }

    /// The name of the status within its family.
    open spec fn status_name(&self) -> Seq<char> {
        arbitrary()
    }

    fn is_success(&self) -> (ok: bool)
        ensures
            ok == self.success(),
    ;

    fn code(&self) -> (c: u32)
        ensures
            c == self.raw_code(),
    ;

    fn kind_str(&self) -> (s: &'static str)
        ensures
            s@ == self.kind_name(),
    ;

    fn status_str(&self) -> (s: &'static str)
        ensures
            s@ == self.status_name(),
    ;

    /// Describes the status as `<family> status: <name> (code: <raw code>)`.
    fn describe(&self) -> (text: String)
        ensures
            text@ == status_text(self.kind_name(), self.status_name(), self.raw_code()),
    {
        let mut out = String::new();
        push_text(&mut out, self.kind_str());
        push_text(&mut out, " status: ");
        push_text(&mut out, self.status_str());
        push_text(&mut out, " (code: ");
        push_decimal(&mut out, self.code() as u64);
        push_text(&mut out, ")");
        assert(out@ =~= status_text(self.kind_name(), self.status_name(), self.raw_code()));
        out
    }
}

/// What a pair of candidate value and status translates to: the value when
/// the status is success, the status itself otherwise.
pub open spec fn translated<T, S: StatusCode>(value: T, status: S) -> Result<T, S> {
    if status.success() {
        Ok(value)
    } else {
        Err(status)
    }
}

/// Conversion of a raw call outcome into a `Result`.
pub trait ResultExt<T, S: StatusCode>: Sized {
    /// The result that this outcome stands for.
    spec fn outcome(self) -> Result<T, S>;

    fn to_result(self) -> (r: Result<T, S>)
        ensures
            r == self.outcome(),
    ;
}

impl<T, S: StatusCode> ResultExt<T, S> for (T, S) {
    open spec fn outcome(self) -> Result<T, S> {
        translated(self.0, self.1)
    }

    fn to_result(self) -> (r: Result<T, S>) {
        let (value, status) = self;
        if status.is_success() {
            Ok(value)
        } else {
            Err(status)
        }
    }
}

} // verus!
