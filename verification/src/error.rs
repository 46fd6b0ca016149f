//! The trainer's single error.

use vstd::prelude::*;

verus! {

/// Raised when an input vector's length disagrees with the weight
/// vector's length.  This is a caller-configuration error: it is reported
/// immediately and is not recoverable locally.
#[derive(Clone, Copy, PartialEq, Eq, Structural, Debug)]
pub enum TrainError {
    DimensionMismatch,
}

} // verus!
