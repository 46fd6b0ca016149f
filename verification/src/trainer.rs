//! The learning loop, as an event-driven machine.
//!
//! A [`Training`] runs the perceptron over every example of the dataset,
//! in order, for the configured number of epochs, threading the weight
//! vector from each step into the next — including across epoch
//! boundaries, with no reset and no early exit.  Like a [`Step`], it is
//! advanced by [`Training::resume`], delegating each event to the step in
//! flight and beginning the next step the moment one finishes.  The final
//! weight vector of the last step of the last epoch is the loop's only
//! result.
//!
//! Before anything runs, [`Training::start`] checks that every example's
//! input vector has the weight vector's length and refuses the run with
//! `DimensionMismatch` otherwise.

use vstd::prelude::*;
use crate::scalar::Scalar;
use crate::oracle::{Action, Event, Kind, action_kind};
use crate::error::TrainError;
use crate::step::{
    ActivationPolicy, Phase, Step, StepOutcome, begin, started, transition,
};

verus! {

/// One training example: an input vector (whose last entry conventionally
/// holds the constant `1.0` realizing the bias term) and a target value.
pub struct Example {
    pub inputs: Vec<Scalar>,
    pub target: Scalar,
}

impl Example {
    pub fn new(inputs: Vec<Scalar>, target: Scalar) -> (r: Example)
        ensures
            r.inputs@ == inputs@,
            r.target == target,
    {
        Example { inputs, target }
    }
}

/// View-level equality of two example sequences.
pub open spec fn exs_eq(a: Seq<Example>, b: Seq<Example>) -> bool {
    &&& a.len() == b.len()
    &&& forall|i: int|
        0 <= i < a.len() ==> (#[trigger] a[i]).inputs@ == b[i].inputs@ && a[i].target
            == b[i].target
}

/// Every example's input vector has length `l`.
pub open spec fn dims_ok(exs: Seq<Example>, l: nat) -> bool {
    forall|i: int| 0 <= i < exs.len() ==> (#[trigger] exs[i]).inputs@.len() == l
}

/// A training run in flight.
pub struct Training {
    pub examples: Vec<Example>,
    pub eta: Scalar,
    pub policy: ActivationPolicy,
    pub threshold: Scalar,
    /// The configured number of passes over the dataset.
    pub epochs: u32,
    /// The epoch of the step in flight.
    pub cur_epoch: u32,
    /// The example index of the step in flight.
    pub cur_index: usize,
    /// The step in flight.
    pub inner: Step,
}

/// What one call to [`Training::resume`] produces.
pub enum TrainOutcome {
    /// The run goes on and asks for the given action's answer.
    Running(Training, Action),
    /// The run is complete; this is the final weight vector.
    Done(Vec<Scalar>),
}

impl Training {
    pub open spec fn wf(self) -> bool {
        &&& self.cur_epoch < self.epochs
        &&& self.cur_index < self.examples@.len()
        &&& self.inner.wf()
        &&& dims_ok(self.examples@, self.inner.weights@.len())
        &&& self.inner.eta == self.eta
        &&& self.inner.policy == self.policy
        &&& self.inner.threshold == self.threshold
        &&& self.inner.inputs@ == self.examples@[self.cur_index as int].inputs@
        &&& self.inner.target == self.examples@[self.cur_index as int].target
    }

    /// The kind of event the run is waiting for.
    pub open spec fn awaits(self) -> Kind {
        self.inner.awaits()
    }

    /// Whether an event answers what the run is waiting for.
    pub open spec fn expects(self, e: Event) -> bool {
        self.inner.expects(e)
    }
}

/// The run's configuration is carried unchanged.
pub open spec fn train_core_eq(pre: Training, post: Training) -> bool {
    &&& exs_eq(post.examples@, pre.examples@)
    &&& post.eta == pre.eta
    &&& post.policy == pre.policy
    &&& post.threshold == pre.threshold
    &&& post.epochs == pre.epochs
}

/// Whether this event finishes the step in flight: either the activation
/// output equalled the target exactly, or the bias slot's answer arrives.
pub open spec fn step_finishing(s: Step, e: Event) -> bool {
    ||| (s.phase matches Phase::EqChk { .. }) && e == Event::Truth(true)
    ||| s.phase is Bias
}

/// The weight vector a finishing step hands back: the weights unchanged
/// when the step took the equality branch, otherwise the built feature
/// slots with the answered bias appended.
pub open spec fn finished_view(s: Step, e: Event) -> Seq<Scalar> {
    match (s.phase, e) {
        (Phase::Bias, Event::Val(b)) => s.built@.push(b),
        _ => s.weights@,
    }
}

/// The transition relation of the learning loop: the event is handed to
/// the step in flight; while that step runs, the loop carries its outcome
/// through; when it finishes, the loop threads the resulting weights into
/// a fresh step on the next example — the next index of this epoch, or
/// the first example of the next epoch — and only after the last step of
/// the last epoch does the loop finish, with that step's weights.
pub open spec fn train_transition(pre: Training, e: Event, r: TrainOutcome) -> bool {
    if step_finishing(pre.inner, e) {
        let w = finished_view(pre.inner, e);
        if pre.cur_index + 1 < pre.examples@.len() {
            &&& r matches TrainOutcome::Running(t2, a)
            &&& train_core_eq(pre, t2)
            &&& t2.cur_epoch == pre.cur_epoch
            &&& t2.cur_index == pre.cur_index + 1
            &&& started(
                t2.inner,
                a,
                w,
                pre.examples@[pre.cur_index + 1].inputs@,
                pre.examples@[pre.cur_index + 1].target,
                pre.eta,
                pre.policy,
                pre.threshold,
            )
        } else if pre.cur_epoch + 1 < pre.epochs {
            &&& r matches TrainOutcome::Running(t2, a)
            &&& train_core_eq(pre, t2)
            &&& t2.cur_epoch == pre.cur_epoch + 1
            &&& t2.cur_index == 0
            &&& started(
                t2.inner,
                a,
                w,
                pre.examples@[0].inputs@,
                pre.examples@[0].target,
                pre.eta,
                pre.policy,
                pre.threshold,
            )
        } else {
            &&& r matches TrainOutcome::Done(wv)
            &&& wv@ == w
        }
    } else {
        &&& r matches TrainOutcome::Running(t2, a)
        &&& train_core_eq(pre, t2)
        &&& t2.cur_epoch == pre.cur_epoch
        &&& t2.cur_index == pre.cur_index
        &&& transition(pre.inner, e, StepOutcome::Running(t2.inner, a))
    }
}

/// Clones a scalar vector; scalars are plain bit patterns, so the clone
/// is the same sequence of values.
fn clone_scalars(v: &Vec<Scalar>) -> (r: Vec<Scalar>)
    ensures
        r@ == v@,
{
    let r = v.clone();
    proof {
        assert(r@ =~= v@);
    }
    r
}

impl Training {
    /// Starts a training run: the dataset, the learning rate, the initial
    /// weight vector (feature weights with the bias weight last), the
    /// number of epochs, and the activation policy with its threshold.
    ///
    /// Any example whose input vector disagrees in length with the weight
    /// vector refuses the whole run with `DimensionMismatch`.  A run over
    /// no examples or zero epochs finishes at once with the weights
    /// unchanged; otherwise the first step begins on the first example.
    pub fn start(
        examples: Vec<Example>,
        eta: Scalar,
        weights: Vec<Scalar>,
        epochs: u32,
        policy: ActivationPolicy,
        threshold: Scalar,
    ) -> (r: Result<TrainOutcome, TrainError>)
        requires
            weights@.len() >= 1,
        ensures
            !dims_ok(examples@, weights@.len()) ==> (r matches Err(err) && err
                == TrainError::DimensionMismatch),
            dims_ok(examples@, weights@.len()) && (epochs == 0 || examples@.len() == 0) ==> (
            r matches Ok(o) && o matches TrainOutcome::Done(w) && w@ == weights@),
            dims_ok(examples@, weights@.len()) && epochs > 0 && examples@.len() > 0 ==> (
            r matches Ok(o) && o matches TrainOutcome::Running(t, a) && {
                &&& exs_eq(t.examples@, examples@)
                &&& t.eta == eta
                &&& t.policy == policy
                &&& t.threshold == threshold
                &&& t.epochs == epochs
                &&& t.cur_epoch == 0
                &&& t.cur_index == 0
                &&& started(
                    t.inner,
                    a,
                    weights@,
                    examples@[0].inputs@,
                    examples@[0].target,
                    eta,
                    policy,
                    threshold,
                )
                &&& t.wf()
                &&& t.awaits() == action_kind(a)
            }),
    {
        let mut k: usize = 0;
        while k < examples.len()
            invariant
                k <= examples@.len(),
                forall|j: int|
                    0 <= j < k ==> (#[trigger] examples@[j]).inputs@.len() == weights@.len(),
            decreases examples@.len() - k,
        {
            if examples[k].inputs.len() != weights.len() {
                return Err(TrainError::DimensionMismatch);
            }
            k += 1;
        }
        if epochs == 0 || examples.len() == 0 {
            return Ok(TrainOutcome::Done(weights));
        }
        let first = &examples[0];
        let ins = clone_scalars(&first.inputs);
        let tgt = first.target;
        let (s, a) = begin(weights, ins, tgt, eta, policy, threshold);
        let t = Training {
            examples,
            eta,
            policy,
            threshold,
            epochs,
            cur_epoch: 0,
            cur_index: 0,
            inner: s,
        };
        Ok(TrainOutcome::Running(t, a))
    }

    /// Advances the run by one event.  The outcome is exactly what
    /// [`train_transition`] prescribes; a running machine stays
    /// well-formed and awaits the kind of event its new action calls for,
    /// and a finished run returns a weight vector of the incoming length.
    pub fn resume(self, e: Event) -> (r: TrainOutcome)
        requires
            self.wf(),
            self.expects(e),
        ensures
            train_transition(self, e, r),
            r matches TrainOutcome::Running(t2, a) ==> t2.wf() && t2.awaits() == action_kind(a),
            r matches TrainOutcome::Done(w) ==> w@.len() == self.inner.weights@.len(),
    {
        let Training { examples, eta, policy, threshold, epochs, cur_epoch, cur_index, inner } =
            self;
        match inner.resume(e) {
            StepOutcome::Running(s2, a) => {
                let t2 = Training {
                    examples,
                    eta,
                    policy,
                    threshold,
                    epochs,
                    cur_epoch,
                    cur_index,
                    inner: s2,
                };
                TrainOutcome::Running(t2, a)
            },
            StepOutcome::Done(w) => {
                let n = examples.len();
                if cur_index + 1 < n {
                    let idx = cur_index + 1;
                    let nxt = &examples[idx];
                    let ins = clone_scalars(&nxt.inputs);
                    let tgt = nxt.target;
                    let (s, a) = begin(w, ins, tgt, eta, policy, threshold);
                    let t2 = Training {
                        examples,
                        eta,
                        policy,
                        threshold,
                        epochs,
                        cur_epoch,
                        cur_index: idx,
                        inner: s,
                    };
                    TrainOutcome::Running(t2, a)
                } else if cur_epoch + 1 < epochs {
                    let nxt = &examples[0];
                    let ins = clone_scalars(&nxt.inputs);
                    let tgt = nxt.target;
                    let (s, a) = begin(w, ins, tgt, eta, policy, threshold);
                    let t2 = Training {
                        examples,
                        eta,
                        policy,
                        threshold,
                        epochs,
                        cur_epoch: cur_epoch + 1,
                        cur_index: 0,
                        inner: s,
                    };
                    TrainOutcome::Running(t2, a)
                } else {
                    TrainOutcome::Done(w)
                }
            },
        }
    }
}

} // verus!
