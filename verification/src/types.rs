//! Plain value types.

use vstd::prelude::*;
use crate::text::{decimal, push_decimal, push_text};

pub use crate::hip::device::Device;

verus! {

/// A version of two or three numbers.
#[derive(Debug, PartialEq, Eq, PartialOrd, Ord, Clone, Copy)]
pub struct DriverVersion {
    major: u32,
    minor: u32,
    patch: Option<u32>,
}

/// What a version is: its numbers.
pub struct VersionView {
    pub major: u32,
    pub minor: u32,
    pub patch: Option<u32>,
}

impl View for DriverVersion {
    type V = VersionView;

    closed spec fn view(&self) -> VersionView {
        VersionView { major: self.major, minor: self.minor, patch: self.patch }
    }
}

impl VersionView {
    /// The text of a version: its numbers in decimal with a dot between
    /// them, the patch number only where there is one.
    pub open spec fn text(self) -> Seq<char> {
        match self.patch {
            Some(patch) => decimal(self.major as nat) + "."@ + decimal(self.minor as nat) + "."@
                + decimal(patch as nat),
            None => decimal(self.major as nat) + "."@ + decimal(self.minor as nat),
        }
    }
}

impl DriverVersion {
    /// The version of the given numbers.
    pub fn new(major: u32, minor: u32, patch: Option<u32>) -> (v: Self)
        ensures
            v@ == (VersionView { major, minor, patch }),
    {
        DriverVersion { major, minor, patch }
    }

    /// The version of three numbers.
    pub fn major_minor_patch(major: u32, minor: u32, patch: u32) -> (v: Self)
        ensures
            v@ == (VersionView { major, minor, patch: Some(patch) }),
    {
        DriverVersion::new(major, minor, Some(patch))
    }

    /// The version of two numbers, without a patch number.
    pub fn major_minor(major: u32, minor: u32) -> (v: Self)
        ensures
            v@ == (VersionView { major, minor, patch: None }),
    {
        DriverVersion::new(major, minor, None)
    }

    /// The version as text: `major.minor.patch`, or `major.minor` where
    /// there is no patch number.
    pub fn to_string(&self) -> (s: String)
        ensures
            s@ == self@.text(),
    {
        let mut out = String::new();
        push_decimal(&mut out, self.major as u64);
        push_text(&mut out, ".");
        push_decimal(&mut out, self.minor as u64);
        match self.patch {
            Some(patch) => {
                push_text(&mut out, ".");
                push_decimal(&mut out, patch as u64);
            },
            None => {},
        }
        assert(out@ =~= self@.text());
        out
    }
}

} // verus!
