//! One perceptron step, as an event-driven machine.
//!
//! A [`Step`] carries one example's inputs, its target, the current
//! weights, the learning rate, and the chosen activation policy.  It is
//! advanced by [`Step::resume`]: each call consumes the answer to the
//! previously emitted [`Action`] and either emits the next action or
//! finishes with the step's resulting weight vector.
//!
//! The step proceeds exactly as the trainer prescribes:
//! 1. the activity — the dot product of weights and inputs, accumulated
//!    left to right from zero, one product and one addition at a time;
//! 2. the activation output, per the selected [`ActivationPolicy`];
//! 3. a diagnostic record, emitted before any update;
//! 4. an exact equality comparison of activation output and target: on
//!    equality the weights are returned unchanged, otherwise every
//!    feature slot `i < L-1` becomes `weights[i] + eta*(target-out)*inputs[i]`
//!    and the bias slot becomes `weights[L-1] + (target-out)` — the bias
//!    update deliberately carries no learning-rate or input factor.
//!
//! The whole transition relation is the spec function [`transition`]; the
//! executable machine is proved to follow it exactly.

use vstd::prelude::*;
use crate::scalar::{Scalar, one, scalar_one, scalar_zero, zero};
use crate::oracle::{Action, DiagRecord, Event, Kind, action_kind, event_kind};
use crate::error::TrainError;

verus! {

/// The activation function applied to the raw activity, selected once per
/// training run.
///
/// * `PlainSigmoid` — `1 / (1 + e^{-activity})`; the threshold is ignored.
/// * `ThresholdedSigmoid` — `(1 / (1 + e^{-activity})) * threshold`; the
///   threshold is a direct multiplier on the sigmoid output, not a gate.
/// * `BinaryStep` — `1.0` if `activity > threshold`, else `0.0`.
#[derive(Clone, Copy, PartialEq, Eq, Structural, Debug)]
pub enum ActivationPolicy {
    PlainSigmoid,
    ThresholdedSigmoid,
    BinaryStep,
}

/// Where a step stands: each variant records which answer the machine is
/// waiting for, together with the values it still needs.
#[derive(Clone, Copy, PartialEq, Eq, Structural, Debug)]
pub enum Phase {
    /// Awaiting the product `weights[i] * inputs[i]`; `acc` is the sum so far.
    Prod { i: usize, acc: Scalar },
    /// Awaiting the sum `acc + product` for slot `i`.
    Sum { i: usize },
    /// Awaiting the sigmoid of the activity.
    Sig { activity: Scalar },
    /// Awaiting the sigmoid output scaled by the threshold.
    Scale { activity: Scalar },
    /// Awaiting the comparison `activity > threshold`.
    StepCmp { activity: Scalar },
    /// Awaiting the acknowledgement of the diagnostic record.
    Emitting { act_out: Scalar },
    /// Awaiting the comparison `activation_output == target`.
    EqChk { act_out: Scalar },
    /// Awaiting the difference `target - activation_output`.
    Diff,
    /// Awaiting the product `eta * diff`.
    EtaDiff { diff: Scalar },
    /// Awaiting the delta `eta_diff * inputs[i]` for feature slot `i`.
    Delta { i: usize, eta_diff: Scalar, diff: Scalar },
    /// Awaiting the new weight `weights[i] + delta` for feature slot `i`.
    NewWeight { i: usize, eta_diff: Scalar, diff: Scalar },
    /// Awaiting the new bias `weights[L-1] + diff`.
    Bias,
}

/// One perceptron step in flight.
pub struct Step {
    pub weights: Vec<Scalar>,
    pub inputs: Vec<Scalar>,
    pub target: Scalar,
    pub eta: Scalar,
    pub policy: ActivationPolicy,
    pub threshold: Scalar,
    /// The updated weights built so far, feature slot by feature slot.
    pub built: Vec<Scalar>,
    pub phase: Phase,
}

/// What one call to [`Step::resume`] produces.
pub enum StepOutcome {
    /// The machine goes on and asks for the given action's answer.
    Running(Step, Action),
    /// The step is complete; this is the step's resulting weight vector.
    Done(Vec<Scalar>),
}

impl Step {
    /// The (constant) length of the weight vector, bias slot included.
    pub open spec fn len(self) -> nat {
        self.weights@.len()
    }

    /// Well-formedness: inputs and weights agree in length, the length is
    /// at least one, and the phase's indices and the partial build are in
    /// step with each other.
    pub open spec fn wf(self) -> bool {
        &&& self.inputs@.len() == self.weights@.len()
        &&& self.weights@.len() >= 1
        &&& match self.phase {
            Phase::Prod { i, .. } => i < self.len() && self.built@.len() == 0,
            Phase::Sum { i } => i < self.len() && self.built@.len() == 0,
            Phase::Sig { .. } => self.built@.len() == 0,
            Phase::Scale { .. } => self.built@.len() == 0,
            Phase::StepCmp { .. } => self.built@.len() == 0,
            Phase::Emitting { .. } => self.built@.len() == 0,
            Phase::EqChk { .. } => self.built@.len() == 0,
            Phase::Diff => self.built@.len() == 0,
            Phase::EtaDiff { .. } => self.built@.len() == 0 && self.len() >= 2,
            Phase::Delta { i, .. } => i < self.len() - 1 && self.built@.len() == i,
            Phase::NewWeight { i, .. } => i < self.len() - 1 && self.built@.len() == i,
            Phase::Bias => self.built@.len() == self.len() - 1,
        }
    }

    /// The kind of event the machine is waiting for.
    pub open spec fn awaits(self) -> Kind {
        match self.phase {
            Phase::StepCmp { .. } => Kind::TruthK,
            Phase::EqChk { .. } => Kind::TruthK,
            Phase::Emitting { .. } => Kind::AckK,
            _ => Kind::ValK,
        }
    }

    /// Whether an event answers what the machine is waiting for.
    pub open spec fn expects(self, e: Event) -> bool {
        event_kind(e) == self.awaits()
    }
}

/// The two machines agree on everything but the phase and the partial
/// build: same weights, inputs, target, rate, policy and threshold.
pub open spec fn same_core(pre: Step, post: Step) -> bool {
    &&& post.weights@ == pre.weights@
    &&& post.inputs@ == pre.inputs@
    &&& post.target == pre.target
    &&& post.eta == pre.eta
    &&& post.policy == pre.policy
    &&& post.threshold == pre.threshold
}

/// View-level equality of two in-flight steps.
pub open spec fn step_eq(s1: Step, s2: Step) -> bool {
    &&& same_core(s1, s2)
    &&& s1.built@ == s2.built@
    &&& s1.phase == s2.phase
}

/// View-level equality of two step outcomes.
pub open spec fn outcome_eq(r1: StepOutcome, r2: StepOutcome) -> bool {
    match (r1, r2) {
        (StepOutcome::Running(s1, a1), StepOutcome::Running(s2, a2)) => step_eq(s1, s2) && a1 == a2,
        (StepOutcome::Done(w1), StepOutcome::Done(w2)) => w1@ == w2@,
        _ => false,
    }
}

/// The transition relation of one perceptron step: from the machine `pre`
/// and the event `e`, exactly the outcome `r` may be produced.  This is
/// the step's whole specification; [`Step::resume`] is proved against it.
pub open spec fn transition(pre: Step, e: Event, r: StepOutcome) -> bool {
    let l = pre.weights@.len() as int;
    match pre.phase {
        Phase::Prod { i, acc } => {
            &&& e matches Event::Val(p)
            &&& r matches StepOutcome::Running(s2, a)
            &&& same_core(pre, s2)
            &&& s2.built@ == pre.built@
            &&& s2.phase == (Phase::Sum { i })
            &&& a == Action::Add(acc, p)
        },
        Phase::Sum { i } => {
            &&& e matches Event::Val(acc2)
            &&& r matches StepOutcome::Running(s2, a)
            &&& same_core(pre, s2)
            &&& s2.built@ == pre.built@
            &&& if i + 1 < l {
                &&& s2.phase == (Phase::Prod { i: (i + 1) as usize, acc: acc2 })
                &&& a == Action::Mul(pre.weights@[i + 1], pre.inputs@[i + 1])
            } else {
                match pre.policy {
                    ActivationPolicy::BinaryStep => {
                        &&& s2.phase == (Phase::StepCmp { activity: acc2 })
                        &&& a == Action::Gt(acc2, pre.threshold)
                    },
                    _ => {
                        &&& s2.phase == (Phase::Sig { activity: acc2 })
                        &&& a == Action::Sigmoid(acc2)
                    },
                }
            }
        },
        Phase::Sig { activity } => {
            &&& e matches Event::Val(s)
            &&& r matches StepOutcome::Running(s2, a)
            &&& same_core(pre, s2)
            &&& s2.built@ == pre.built@
            &&& if pre.policy is ThresholdedSigmoid {
                &&& s2.phase == (Phase::Scale { activity })
                &&& a == Action::Mul(s, pre.threshold)
            } else {
                &&& s2.phase == (Phase::Emitting { act_out: s })
                &&& a == Action::Emit(
                    DiagRecord { target: pre.target, activity, activation_output: s },
                )
            }
        },
        Phase::Scale { activity } => {
            &&& e matches Event::Val(v)
            &&& r matches StepOutcome::Running(s2, a)
            &&& same_core(pre, s2)
            &&& s2.built@ == pre.built@
            &&& s2.phase == (Phase::Emitting { act_out: v })
            &&& a == Action::Emit(DiagRecord { target: pre.target, activity, activation_output: v })
        },
        Phase::StepCmp { activity } => {
            &&& e matches Event::Truth(b)
            &&& r matches StepOutcome::Running(s2, a)
            &&& same_core(pre, s2)
            &&& s2.built@ == pre.built@
            &&& {
                let o = if b { scalar_one() } else { scalar_zero() };
                &&& s2.phase == (Phase::Emitting { act_out: o })
                &&& a == Action::Emit(
                    DiagRecord { target: pre.target, activity, activation_output: o },
                )
            }
        },
        Phase::Emitting { act_out } => {
            &&& e matches Event::Ack
            &&& r matches StepOutcome::Running(s2, a)
            &&& same_core(pre, s2)
            &&& s2.built@ == pre.built@
            &&& s2.phase == (Phase::EqChk { act_out })
            &&& a == Action::EqCheck(act_out, pre.target)
        },
        Phase::EqChk { act_out } => {
            &&& e matches Event::Truth(eq)
            &&& if eq {
                &&& r matches StepOutcome::Done(w)
                &&& w@ == pre.weights@
            } else {
                &&& r matches StepOutcome::Running(s2, a)
                &&& same_core(pre, s2)
                &&& s2.built@ == pre.built@
                &&& s2.phase == Phase::Diff
                &&& a == Action::Sub(pre.target, act_out)
            }
        },
        Phase::Diff => {
            &&& e matches Event::Val(diff)
            &&& r matches StepOutcome::Running(s2, a)
            &&& same_core(pre, s2)
            &&& s2.built@ == pre.built@
            &&& if l == 1 {
                &&& s2.phase == Phase::Bias
                &&& a == Action::Add(pre.weights@[l - 1], diff)
            } else {
                &&& s2.phase == (Phase::EtaDiff { diff })
                &&& a == Action::Mul(pre.eta, diff)
            }
        },
        Phase::EtaDiff { diff } => {
            &&& e matches Event::Val(ed)
            &&& r matches StepOutcome::Running(s2, a)
            &&& same_core(pre, s2)
            &&& s2.built@ == pre.built@
            &&& s2.phase == (Phase::Delta { i: 0usize, eta_diff: ed, diff })
            &&& a == Action::Mul(ed, pre.inputs@[0])
        },
        Phase::Delta { i, eta_diff, diff } => {
            &&& e matches Event::Val(d)
            &&& r matches StepOutcome::Running(s2, a)
            &&& same_core(pre, s2)
            &&& s2.built@ == pre.built@
            &&& s2.phase == (Phase::NewWeight { i, eta_diff, diff })
            &&& a == Action::Add(pre.weights@[i as int], d)
        },
        Phase::NewWeight { i, eta_diff, diff } => {
            &&& e matches Event::Val(wv)
            &&& r matches StepOutcome::Running(s2, a)
            &&& same_core(pre, s2)
            &&& s2.built@ == pre.built@.push(wv)
            &&& if i + 1 < l - 1 {
                &&& s2.phase == (Phase::Delta { i: (i + 1) as usize, eta_diff, diff })
                &&& a == Action::Mul(eta_diff, pre.inputs@[i + 1])
            } else {
                &&& s2.phase == Phase::Bias
                &&& a == Action::Add(pre.weights@[l - 1], diff)
            }
        },
        Phase::Bias => {
            &&& e matches Event::Val(b)
            &&& r matches StepOutcome::Done(w)
            &&& w@ == pre.built@.push(b)
        },
    }
}

/// A freshly begun step over the given parameters: the machine stands at
/// the first product of the activity, the accumulator is zero, and the
/// first requested action is `Mul(weights[0], inputs[0])`.
pub open spec fn started(
    s: Step,
    a: Action,
    weights: Seq<Scalar>,
    inputs: Seq<Scalar>,
    target: Scalar,
    eta: Scalar,
    policy: ActivationPolicy,
    threshold: Scalar,
) -> bool {
    &&& s.weights@ == weights
    &&& s.inputs@ == inputs
    &&& s.target == target
    &&& s.eta == eta
    &&& s.policy == policy
    &&& s.threshold == threshold
    &&& s.built@.len() == 0
    &&& s.phase == (Phase::Prod { i: 0usize, acc: scalar_zero() })
    &&& a == Action::Mul(weights[0], inputs[0])
}

/// Begins one perceptron step; the dimensions must already agree.
pub fn begin(
    weights: Vec<Scalar>,
    inputs: Vec<Scalar>,
    target: Scalar,
    eta: Scalar,
    policy: ActivationPolicy,
    threshold: Scalar,
) -> (r: (Step, Action))
    requires
        inputs@.len() == weights@.len(),
        weights@.len() >= 1,
    ensures
        started(r.0, r.1, weights@, inputs@, target, eta, policy, threshold),
        r.0.wf(),
        r.0.awaits() == action_kind(r.1),
{
    let a = Action::Mul(weights[0], inputs[0]);
    let s = Step {
        weights,
        inputs,
        target,
        eta,
        policy,
        threshold,
        built: Vec::new(),
        phase: Phase::Prod { i: 0, acc: zero() },
    };
    (s, a)
}

impl Step {
    /// Begins one perceptron step, checking that the example's input
    /// vector has the weight vector's length; on disagreement the step is
    /// refused with `DimensionMismatch`.
    pub fn start(
        weights: Vec<Scalar>,
        inputs: Vec<Scalar>,
        target: Scalar,
        eta: Scalar,
        policy: ActivationPolicy,
        threshold: Scalar,
    ) -> (r: Result<(Step, Action), TrainError>)
        requires
            weights@.len() >= 1,
        ensures
            inputs@.len() == weights@.len() ==> (r matches Ok(p) && started(
                p.0,
                p.1,
                weights@,
                inputs@,
                target,
                eta,
                policy,
                threshold,
            ) && p.0.wf() && p.0.awaits() == action_kind(p.1)),
            inputs@.len() != weights@.len() ==> (r matches Err(err) && err
                == TrainError::DimensionMismatch),
    {
        if inputs.len() != weights.len() {
            Err(TrainError::DimensionMismatch)
        } else {
            Ok(begin(weights, inputs, target, eta, policy, threshold))
        }
    }

    /// Advances the step by one event: consumes the answer to the
    /// previously emitted action and produces the next action, or the
    /// step's resulting weight vector.  The outcome is exactly what
    /// [`transition`] prescribes; a running machine stays well-formed and
    /// awaits the kind of event its new action calls for, and a finished
    /// step returns a weight vector of the incoming length.
    pub fn resume(self, e: Event) -> (r: StepOutcome)
        requires
            self.wf(),
            self.expects(e),
        ensures
            transition(self, e, r),
            r matches StepOutcome::Running(s2, a) ==> s2.wf() && s2.awaits() == action_kind(a),
            r matches StepOutcome::Done(w) ==> w@.len() == self.weights@.len(),
    {
        let Step { weights, inputs, target, eta, policy, threshold, built, phase } = self;
        match phase {
            Phase::Prod { i, acc } => {
                let p = match e {
                    Event::Val(p) => p,
                    _ => vstd::pervasive::unreached(),
                };
                let s2 = Step {
                    weights,
                    inputs,
                    target,
                    eta,
                    policy,
                    threshold,
                    built,
                    phase: Phase::Sum { i },
                };
                StepOutcome::Running(s2, Action::Add(acc, p))
            },
            Phase::Sum { i } => {
                let acc2 = match e {
                    Event::Val(v) => v,
                    _ => vstd::pervasive::unreached(),
                };
                let l = weights.len();
                if i + 1 < l {
                    let a = Action::Mul(weights[i + 1], inputs[i + 1]);
                    let s2 = Step {
                        weights,
                        inputs,
                        target,
                        eta,
                        policy,
                        threshold,
                        built,
                        phase: Phase::Prod { i: i + 1, acc: acc2 },
                    };
                    StepOutcome::Running(s2, a)
                } else {
                    match policy {
                        ActivationPolicy::BinaryStep => {
                            let a = Action::Gt(acc2, threshold);
                            let s2 = Step {
                                weights,
                                inputs,
                                target,
                                eta,
                                policy,
                                threshold,
                                built,
                                phase: Phase::StepCmp { activity: acc2 },
                            };
                            StepOutcome::Running(s2, a)
                        },
                        _ => {
                            let a = Action::Sigmoid(acc2);
                            let s2 = Step {
                                weights,
                                inputs,
                                target,
                                eta,
                                policy,
                                threshold,
                                built,
                                phase: Phase::Sig { activity: acc2 },
                            };
                            StepOutcome::Running(s2, a)
                        },
                    }
                }
            },
            Phase::Sig { activity } => {
                let s = match e {
                    Event::Val(v) => v,
                    _ => vstd::pervasive::unreached(),
                };
                match policy {
                    ActivationPolicy::ThresholdedSigmoid => {
                        let a = Action::Mul(s, threshold);
                        let s2 = Step {
                            weights,
                            inputs,
                            target,
                            eta,
                            policy,
                            threshold,
                            built,
                            phase: Phase::Scale { activity },
                        };
                        StepOutcome::Running(s2, a)
                    },
                    _ => {
                        let a = Action::Emit(
                            DiagRecord { target, activity, activation_output: s },
                        );
                        let s2 = Step {
                            weights,
                            inputs,
                            target,
                            eta,
                            policy,
                            threshold,
                            built,
                            phase: Phase::Emitting { act_out: s },
                        };
                        StepOutcome::Running(s2, a)
                    },
                }
            },
            Phase::Scale { activity } => {
                let v = match e {
                    Event::Val(v) => v,
                    _ => vstd::pervasive::unreached(),
                };
                let a = Action::Emit(DiagRecord { target, activity, activation_output: v });
                let s2 = Step {
                    weights,
                    inputs,
                    target,
                    eta,
                    policy,
                    threshold,
                    built,
                    phase: Phase::Emitting { act_out: v },
                };
                StepOutcome::Running(s2, a)
            },
            Phase::StepCmp { activity } => {
                let b = match e {
                    Event::Truth(b) => b,
                    _ => vstd::pervasive::unreached(),
                };
                let o = if b {
                    one()
                } else {
                    zero()
                };
                let a = Action::Emit(DiagRecord { target, activity, activation_output: o });
                let s2 = Step {
                    weights,
                    inputs,
                    target,
                    eta,
                    policy,
                    threshold,
                    built,
                    phase: Phase::Emitting { act_out: o },
                };
                StepOutcome::Running(s2, a)
            },
            Phase::Emitting { act_out } => {
                let a = Action::EqCheck(act_out, target);
                let s2 = Step {
                    weights,
                    inputs,
                    target,
                    eta,
                    policy,
                    threshold,
                    built,
                    phase: Phase::EqChk { act_out },
                };
                StepOutcome::Running(s2, a)
            },
            Phase::EqChk { act_out } => {
                let eq = match e {
                    Event::Truth(b) => b,
                    _ => vstd::pervasive::unreached(),
                };
                if eq {
                    StepOutcome::Done(weights)
                } else {
                    let a = Action::Sub(target, act_out);
                    let s2 = Step {
                        weights,
                        inputs,
                        target,
                        eta,
                        policy,
                        threshold,
                        built,
                        phase: Phase::Diff,
                    };
                    StepOutcome::Running(s2, a)
                }
            },
            Phase::Diff => {
                let diff = match e {
                    Event::Val(v) => v,
                    _ => vstd::pervasive::unreached(),
                };
                if weights.len() == 1 {
                    let a = Action::Add(weights[weights.len() - 1], diff);
                    let s2 = Step {
                        weights,
                        inputs,
                        target,
                        eta,
                        policy,
                        threshold,
                        built,
                        phase: Phase::Bias,
                    };
                    StepOutcome::Running(s2, a)
                } else {
                    let a = Action::Mul(eta, diff);
                    let s2 = Step {
                        weights,
                        inputs,
                        target,
                        eta,
                        policy,
                        threshold,
                        built,
                        phase: Phase::EtaDiff { diff },
                    };
                    StepOutcome::Running(s2, a)
                }
            },
            Phase::EtaDiff { diff } => {
                let ed = match e {
                    Event::Val(v) => v,
                    _ => vstd::pervasive::unreached(),
                };
                let a = Action::Mul(ed, inputs[0]);
                let s2 = Step {
                    weights,
                    inputs,
                    target,
                    eta,
                    policy,
                    threshold,
                    built,
                    phase: Phase::Delta { i: 0, eta_diff: ed, diff },
                };
                StepOutcome::Running(s2, a)
            },
            Phase::Delta { i, eta_diff, diff } => {
                let d = match e {
                    Event::Val(v) => v,
                    _ => vstd::pervasive::unreached(),
                };
                let a = Action::Add(weights[i], d);
                let s2 = Step {
                    weights,
                    inputs,
                    target,
                    eta,
                    policy,
                    threshold,
                    built,
                    phase: Phase::NewWeight { i, eta_diff, diff },
                };
                StepOutcome::Running(s2, a)
            },
            Phase::NewWeight { i, eta_diff, diff } => {
                let wv = match e {
                    Event::Val(v) => v,
                    _ => vstd::pervasive::unreached(),
                };
                let mut built2 = built;
                built2.push(wv);
                let l = weights.len();
                if i + 1 < l - 1 {
                    let a = Action::Mul(eta_diff, inputs[i + 1]);
                    let s2 = Step {
                        weights,
                        inputs,
                        target,
                        eta,
                        policy,
                        threshold,
                        built: built2,
                        phase: Phase::Delta { i: i + 1, eta_diff, diff },
                    };
                    StepOutcome::Running(s2, a)
                } else {
                    let a = Action::Add(weights[weights.len() - 1], diff);
                    let s2 = Step {
                        weights,
                        inputs,
                        target,
                        eta,
                        policy,
                        threshold,
                        built: built2,
                        phase: Phase::Bias,
                    };
                    StepOutcome::Running(s2, a)
                }
            },
            Phase::Bias => {
                let b = match e {
                    Event::Val(v) => v,
                    _ => vstd::pervasive::unreached(),
                };
                let mut done = built;
                done.push(b);
                StepOutcome::Done(done)
            },
        }
    }
}

} // verus!
