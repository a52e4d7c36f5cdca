//! Numbers of the level format, held as the bit pattern of a 32-bit IEEE-754 float.
//!
//! The library never does float arithmetic: it stores, compares and validates
//! values; whoever renders or simulates a level turns the bits back into a float.

use vstd::prelude::*;

verus! {

/// A single-precision float, held by its IEEE-754 bit pattern.
#[derive(Clone, Copy, Debug, PartialEq, Eq, Structural)]
pub struct Scalar {
    pub bits: u32,
}

/// The eight exponent bits of a single-precision bit pattern.
pub open spec fn exponent_bits(bits: u32) -> u32 {
    (bits >> 23u32) & 0xffu32
}

/// A bit pattern is finite unless all its exponent bits are set (infinity or NaN).
pub open spec fn finite_bits(bits: u32) -> bool {
    exponent_bits(bits) != 0xffu32
}

impl Scalar {
    /// Positive zero.
    pub fn zero() -> (r: Scalar)
        ensures
            r.bits == 0,
    {
        Scalar { bits: 0 }
    }

    pub fn from_bits(bits: u32) -> (r: Scalar)
        ensures
            r.bits == bits,
    {
        Scalar { bits }
    }

    pub fn to_bits(&self) -> (r: u32)
        ensures
            r == self.bits,
    {
        self.bits
    }

    pub open spec fn finite(self) -> bool {
        finite_bits(self.bits)
    }

    /// Whether the value is neither infinite nor NaN.
    pub fn is_finite(&self) -> (r: bool)
        ensures
            r == self.finite(),
    {
        (self.bits >> 23u32) & 0xffu32 != 0xffu32
    }
}

} // verus!
