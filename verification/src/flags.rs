//! File-opening options, as a composable bit set.
//!
//! The decoder configures an open call through an integer of bit
//! flags. The values here must match the decoder's own constants bit
//! for bit; they are passed through unmodified, and combinations the
//! decoder does not recognize are passed through uninterpreted.

use vstd::prelude::*;

verus! {

/// A composable set of file-opening flags. The raw bit value is
/// exactly what the decoder receives.
#[derive(Clone, Copy, PartialEq, Eq, Structural, Debug)]
pub struct OpenFlags {
    bits: i32,
}

impl OpenFlags {
    /// The raw bit value this set stands for.
    pub closed spec fn spec_bits(self) -> i32 {
        self.bits
    }

    /// No flags set.
    pub fn empty() -> (r: OpenFlags)
        ensures
            r.spec_bits() == 0,
    {
        OpenFlags { bits: 0 }
    }

    /// Open the file for reading only.
    pub fn read_only() -> (r: OpenFlags)
        ensures
            r.spec_bits() == 1,
    {
        OpenFlags { bits: 1 }
    }

    /// Open the file for writing only.
    pub fn write_only() -> (r: OpenFlags)
        ensures
            r.spec_bits() == 2,
    {
        OpenFlags { bits: 2 }
    }

    /// Select the compressed AIFF-C format variant.
    pub fn aifc() -> (r: OpenFlags)
        ensures
            r.spec_bits() == 16,
    {
        OpenFlags { bits: 16 }
    }

    /// Ask the decoder to optimize writes for size.
    pub fn optimize_size() -> (r: OpenFlags)
        ensures
            r.spec_bits() == 24,
    {
        OpenFlags { bits: 24 }
    }

    /// Mark the underlying stream as not seekable.
    pub fn not_seekable() -> (r: OpenFlags)
        ensures
            r.spec_bits() == 32,
    {
        OpenFlags { bits: 32 }
    }

    /// A flag set from an arbitrary bit value. Bits the decoder does
    /// not recognize are carried through uninterpreted.
    pub fn from_bits(bits: i32) -> (r: OpenFlags)
        ensures
            r.spec_bits() == bits,
    {
        OpenFlags { bits }
    }

    /// The raw bit value, as handed to the decoder.
    pub fn bits(self) -> (r: i32)
        ensures
            r == self.spec_bits(),
    {
        self.bits
    }

    /// The union of two flag sets: a bit is set in the result exactly
    /// when it is set in either operand.
    pub fn union(self, other: OpenFlags) -> (r: OpenFlags)
        ensures
            r.spec_bits() == (self.spec_bits() | other.spec_bits()),
    {
        OpenFlags { bits: self.bits | other.bits }
    }

    /// Whether every bit set in `other` is also set in `self`.
    pub fn contains(self, other: OpenFlags) -> (r: bool)
        ensures
            r == ((self.spec_bits() & other.spec_bits()) == other.spec_bits()),
    {
        (self.bits & other.bits) == other.bits
    }
}

} // verus!
