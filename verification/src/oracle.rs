//! The vocabulary between the training machines and their caller.
//!
//! A machine advances by emitting an [`Action`] — a single scalar
//! operation it wants performed, or a diagnostic record to deliver — and
//! waiting for the matching [`Event`] carrying the answer.  The kind of
//! event an action calls for is fixed by [`action_kind`], so a caller can
//! always answer, and the machines require each event to be of the kind
//! they await.

use vstd::prelude::*;
use crate::scalar::Scalar;

verus! {

/// One per-step diagnostic record: the target, the raw activity, and the
/// activation output, captured before the step decides whether to update.
#[derive(Clone, Copy, PartialEq, Eq, Structural, Debug)]
pub struct DiagRecord {
    pub target: Scalar,
    pub activity: Scalar,
    pub activation_output: Scalar,
}

/// What a machine asks of its caller.
///
/// The arithmetic actions name their operands exactly; the caller performs
/// the operation on doubles and answers with the resulting bits.
/// `Sigmoid(v)` asks for `1 / (1 + e^{-v})`.  `Gt(a, b)` and `EqCheck(a, b)`
/// ask for the IEEE comparisons `a > b` and `a == b`.  `Emit(d)` hands out
/// a diagnostic record; delivery is fire-and-forget and is acknowledged
/// with [`Event::Ack`], never failed.
#[derive(Clone, Copy, PartialEq, Eq, Structural, Debug)]
pub enum Action {
    Mul(Scalar, Scalar),
    Add(Scalar, Scalar),
    Sub(Scalar, Scalar),
    Sigmoid(Scalar),
    Gt(Scalar, Scalar),
    EqCheck(Scalar, Scalar),
    Emit(DiagRecord),
}

/// The caller's answer to an action.
#[derive(Clone, Copy, PartialEq, Eq, Structural, Debug)]
pub enum Event {
    /// The bits of the double an arithmetic action produced.
    Val(Scalar),
    /// The outcome of a comparison action.
    Truth(bool),
    /// Acknowledgement of a diagnostic emission.
    Ack,
}

/// The kind of event that answers an action.
#[derive(Clone, Copy, PartialEq, Eq, Structural, Debug)]
pub enum Kind {
    ValK,
    TruthK,
    AckK,
}

/// Which kind of event each action calls for.
pub open spec fn action_kind(a: Action) -> Kind {
    match a {
        Action::Mul(_, _) => Kind::ValK,
        Action::Add(_, _) => Kind::ValK,
        Action::Sub(_, _) => Kind::ValK,
        Action::Sigmoid(_) => Kind::ValK,
        Action::Gt(_, _) => Kind::TruthK,
        Action::EqCheck(_, _) => Kind::TruthK,
        Action::Emit(_) => Kind::AckK,
    }
}

/// The kind of an event.
pub open spec fn event_kind(e: Event) -> Kind {
    match e {
        Event::Val(_) => Kind::ValK,
        Event::Truth(_) => Kind::TruthK,
        Event::Ack => Kind::AckK,
    }
}

} // verus!
