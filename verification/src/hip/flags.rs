//! Flags that select the class of memory of an allocation.

use vstd::prelude::*;

verus! {

/// A set of allocation flags, kept as the bit pattern that the driver
/// takes.
#[derive(Debug, Clone, Copy, PartialEq, Eq, Structural)]
pub struct DeviceMallocFlag {
    bits: u32,
}

impl View for DeviceMallocFlag {
    type V = u32;

    closed spec fn view(&self) -> u32 {
        self.bits
    }
}

impl DeviceMallocFlag {
    /// No flag: the default class of memory.
    pub fn default_class() -> (flag: DeviceMallocFlag)
        ensures
            flag@ == 0x0,
    {
        DeviceMallocFlag { bits: 0x0 }
    }

    /// Fine-grained memory.
    pub fn finegrained() -> (flag: DeviceMallocFlag)
        ensures
            flag@ == 0x1,
    {
        DeviceMallocFlag { bits: 0x1 }
    }

    /// Memory for signals.
    pub fn signal_memory() -> (flag: DeviceMallocFlag)
        ensures
            flag@ == 0x2,
    {
        DeviceMallocFlag { bits: 0x2 }
    }

    /// Uncached memory.
    pub fn uncached() -> (flag: DeviceMallocFlag)
        ensures
            flag@ == 0x3,
    {
        DeviceMallocFlag { bits: 0x3 }
    }

    /// Physically contiguous memory.
    pub fn contiguous() -> (flag: DeviceMallocFlag)
        ensures
            flag@ == 0x4,
    {
        DeviceMallocFlag { bits: 0x4 }
    }

    /// The set of a bit pattern, every bit kept as it is given.
    pub fn from_bits_retain(bits: u32) -> (flag: DeviceMallocFlag)
        ensures
            flag@ == bits,
    {
        DeviceMallocFlag { bits }
    }

    /// A set of flags is its bit pattern and nothing else: two sets are
    /// equal exactly when their bit patterns are.
    pub proof fn lemma_equal_by_bits(a: DeviceMallocFlag, b: DeviceMallocFlag)
        ensures
            a@ == b@ <==> a == b,
    {
    }

    /// The bit pattern of the set.
    pub fn bits(&self) -> (bits: u32)
        ensures
            bits == self@,
    {
        self.bits
    }

    /// The set with the bits of both.
    pub fn union(self, other: DeviceMallocFlag) -> (both: DeviceMallocFlag)
        ensures
            both@ == self@ | other@,
    {
        DeviceMallocFlag { bits: self.bits | other.bits }
    }

    /// Whether every bit of `other` is in the set.
    pub fn contains(&self, other: DeviceMallocFlag) -> (held: bool)
        ensures
            held == (self@ & other@ == other@),
    {
        self.bits & other.bits == other.bits
    }
}

} // verus!
