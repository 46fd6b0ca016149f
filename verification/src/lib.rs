//! A single-layer perceptron trainer, verified.
//!
//! The training engine — the weighted-sum activity, the activation policy,
//! the weight-update rule, and the epoch/sample loop — is written as
//! event-driven machines whose decisions are fully specified and proved.
//! Scalar values are IEEE-754 doubles carried as raw bit patterns: the
//! machines decide *which* arithmetic operation comes next and on *which*
//! operands, and the caller performs each requested operation on real
//! doubles, handing the resulting bits back as the next event.  Every
//! decision — operand selection, update order, the asymmetric bias rule,
//! the exact-equality update gate, error reporting — is verified; only the
//! double arithmetic itself lives with the caller.

pub mod error;
pub mod laws;
pub mod oracle;
pub mod scalar;
pub mod step;
pub mod trainer;
