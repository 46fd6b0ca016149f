//! Opaque scalar values.
//!
//! A `Scalar` is an IEEE-754 double carried as its raw 64-bit pattern.
//! The library never interprets the bits: it threads scalars through the
//! training machines and asks the caller to perform each arithmetic
//! operation on them.  Equality of `Scalar` values is bit equality, which
//! the library uses only to *state* that values are carried unchanged;
//! the numeric equality that gates a weight update is answered by the
//! caller, like every other arithmetic question.

use vstd::prelude::*;

verus! {

/// An IEEE-754 double, held as its raw bit pattern.
#[derive(Clone, Copy, PartialEq, Eq, Structural, Debug)]
pub struct Scalar {
    pub bits: u64,
}

/// The bit pattern of the double `1.0`.
pub open spec fn scalar_one() -> Scalar {
    Scalar { bits: 0x3FF0000000000000u64 }
}

/// The bit pattern of the double `0.0`.
pub open spec fn scalar_zero() -> Scalar {
    Scalar { bits: 0u64 }
}

/// The double `1.0`.
pub fn one() -> (r: Scalar)
    ensures
        r == scalar_one(),
{
    Scalar { bits: 0x3FF0000000000000u64 }
}

/// The double `0.0`.
pub fn zero() -> (r: Scalar)
    ensures
        r == scalar_zero(),
{
    Scalar { bits: 0u64 }
}

} // verus!
