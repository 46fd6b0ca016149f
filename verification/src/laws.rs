//! Laws of the perceptron step.
//!
//! These proof functions state, over the transition relation of
//! [`crate::step`], the guarantees that hold of every run of a step:
//! which operand each requested operation names, the asymmetry of the
//! bias update, that an exactly matched target leaves the weights
//! untouched, and that the machine is deterministic.  The numeric value
//! of each answered operation lives with the caller; everything the
//! machine decides from those answers is pinned down here.

use vstd::prelude::*;
use crate::scalar::{Scalar, scalar_one, scalar_zero};
use crate::oracle::{Action, Event};
use crate::step::{
    Phase, Step, StepOutcome, outcome_eq, same_core, step_eq, transition,
};
use crate::trainer::{
    TrainOutcome, Training, exs_eq, finished_view, step_finishing, train_transition,
};

verus! {

/// A single transition is deterministic: from one machine and one event,
/// any two permitted outcomes agree (view-for-view).
pub proof fn lemma_step_deterministic(s: Step, e: Event, r1: StepOutcome, r2: StepOutcome)
    requires
        transition(s, e, r1),
        transition(s, e, r2),
    ensures
        outcome_eq(r1, r2),
{
}

/// Every continuing transition carries the step's weights, inputs,
/// target, rate, policy and threshold through unchanged.
pub proof fn lemma_step_preserves_core(s: Step, e: Event, s2: Step, a: Action)
    requires
        transition(s, e, StepOutcome::Running(s2, a)),
    ensures
        same_core(s, s2),
{
}

/// The exact-equality gate: when the comparison of activation output and
/// target answers `true`, the step finishes at once and its resulting
/// weight vector is the incoming one, value for value.
pub proof fn lemma_equal_target_keeps_weights(s: Step, r: StepOutcome)
    requires
        s.phase matches Phase::EqChk { .. },
        transition(s, Event::Truth(true), r),
    ensures
        r matches StepOutcome::Done(w) && w@ == s.weights@,
{
}

/// The difference value a step carries into its bias update: the answer
/// to `Sub(target, activation_output)` as it stands at this machine.
pub open spec fn pending_diff(s: Step, e: Event) -> Scalar {
    match (s.phase, e) {
        (Phase::Diff, Event::Val(d)) => d,
        (Phase::NewWeight { diff, .. }, _) => diff,
        _ => scalar_zero(),
    }
}

/// The bias update rule: whatever transition brings the machine into the
/// `Bias` phase, the operation it requests is `Add(weights[L-1], diff)` —
/// the raw difference is added to the bias weight, with no learning-rate
/// and no input factor.
pub proof fn lemma_bias_rule(s: Step, e: Event, s2: Step, a: Action)
    requires
        s.wf(),
        transition(s, e, StepOutcome::Running(s2, a)),
        s2.phase is Bias,
    ensures
        a == Action::Add(s.weights@[s.weights@.len() - 1], pending_diff(s, e)),
{
}

/// The feature update rule: for a feature slot `i < L-1`, the new weight
/// requested is `Add(weights[i], delta)`, where `delta` answered
/// `Mul(eta_diff, inputs[i])` and `eta_diff` answered `Mul(eta, diff)` —
/// the learning rate and the input both scale every feature update.
pub proof fn lemma_feature_rule(s: Step, d: Scalar, s2: Step, a: Action)
    requires
        s.phase matches Phase::Delta { .. },
        transition(s, Event::Val(d), StepOutcome::Running(s2, a)),
    ensures
        s.phase matches Phase::Delta { i, eta_diff, diff } ==> a == Action::Add(
            s.weights@[i as int],
            d,
        ) && s2.phase == (Phase::NewWeight { i, eta_diff, diff }),
{
}

/// The binary-step decision: the activation output is exactly `1.0` when
/// the comparison `activity > threshold` answers `true`, and exactly
/// `0.0` otherwise.
pub proof fn lemma_binary_step(s: Step, b: bool, s2: Step, a: Action)
    requires
        s.phase matches Phase::StepCmp { .. },
        transition(s, Event::Truth(b), StepOutcome::Running(s2, a)),
    ensures
        s2.phase == (Phase::Emitting {
            act_out: if b {
                scalar_one()
            } else {
                scalar_zero()
            },
        }),
{
}

/// The activity is accumulated left to right: while summing, the machine
/// only ever requests the product `weights[i+1] * inputs[i+1]` after slot
/// `i`, or adds the answered product to the running accumulator.
pub proof fn lemma_activity_questions(s: Step, v: Scalar, s2: Step, a: Action)
    requires
        transition(s, Event::Val(v), StepOutcome::Running(s2, a)),
    ensures
        s.phase matches Phase::Prod { i, acc } ==> a == Action::Add(acc, v) && s2.phase == (
        Phase::Sum { i }),
        (s.phase matches Phase::Sum { i } && i + 1 < s.weights@.len()) ==> a == Action::Mul(
            s.weights@[s.phase->Sum_i + 1],
            s.inputs@[s.phase->Sum_i + 1],
        ),
{
}

/// A run of one step: from machine `s`, consuming the events `es` one
/// transition at a time ends the step with the weight sequence `w`.
pub open spec fn runs_to(s: Step, es: Seq<Event>, w: Seq<Scalar>) -> bool
    decreases es.len(),
{
    es.len() > 0 && {
        ||| (es.len() == 1 && exists|wv: Vec<Scalar>|
            (#[trigger] transition(s, es[0], StepOutcome::Done(wv))) && wv@ == w)
        ||| (exists|s2: Step, a: Action|
            (#[trigger] transition(s, es[0], StepOutcome::Running(s2, a))) && runs_to(
                s2,
                es.drop_first(),
                w,
            ))
    }
}

/// Transitions respect view-level equality of machines: two machines that
/// agree view-for-view permit the same outcomes.
pub proof fn lemma_transition_congruence(s1: Step, s2: Step, e: Event, r: StepOutcome)
    requires
        step_eq(s1, s2),
        transition(s1, e, r),
    ensures
        transition(s2, e, r),
{
}

/// Runs respect view-level equality of machines.
pub proof fn lemma_runs_to_congruence(s1: Step, s2: Step, es: Seq<Event>, w: Seq<Scalar>)
    requires
        step_eq(s1, s2),
        runs_to(s1, es, w),
    ensures
        runs_to(s2, es, w),
{
    if es.len() == 1 && exists|wv: Vec<Scalar>|
        (#[trigger] transition(s1, es[0], StepOutcome::Done(wv))) && wv@ == w {
        let wv = choose|wv: Vec<Scalar>|
            (#[trigger] transition(s1, es[0], StepOutcome::Done(wv))) && wv@ == w;
        lemma_transition_congruence(s1, s2, es[0], StepOutcome::Done(wv));
        assert(transition(s2, es[0], StepOutcome::Done(wv)) && wv@ == w);
    } else {
        let (s3, a) = choose|s3: Step, a: Action|
            (#[trigger] transition(s1, es[0], StepOutcome::Running(s3, a))) && runs_to(
                s3,
                es.drop_first(),
                w,
            );
        lemma_transition_congruence(s1, s2, es[0], StepOutcome::Running(s3, a));
        assert(transition(s2, es[0], StepOutcome::Running(s3, a)) && runs_to(
            s3,
            es.drop_first(),
            w,
        ));
    }
}

/// If the activation output equalled the target exactly — the run's last
/// event is the `true` or `false` answer to a comparison, and a run can
/// only end on a comparison answer when it is the equality comparison
/// answering `true` — the step's resulting weights are the incoming
/// weights, value for value.
pub proof fn lemma_equal_target_run(s: Step, es: Seq<Event>, w: Seq<Scalar>)
    requires
        runs_to(s, es, w),
        es[es.len() - 1] is Truth,
    ensures
        w == s.weights@,
    decreases es.len(),
{
    if es.len() == 1 && exists|wv: Vec<Scalar>|
        (#[trigger] transition(s, es[0], StepOutcome::Done(wv))) && wv@ == w {
        let wv = choose|wv: Vec<Scalar>|
            (#[trigger] transition(s, es[0], StepOutcome::Done(wv))) && wv@ == w;
        assert(w == s.weights@);
    } else {
        let (s2, a) = choose|s2: Step, a: Action|
            (#[trigger] transition(s, es[0], StepOutcome::Running(s2, a))) && runs_to(
                s2,
                es.drop_first(),
                w,
            );
        assert(es.drop_first()[es.drop_first().len() - 1] == es[es.len() - 1]);
        lemma_equal_target_run(s2, es.drop_first(), w);
        lemma_step_preserves_core(s, es[0], s2, a);
    }
}

/// Determinism of a whole run: from one machine, one event sequence can
/// end a step with only one weight sequence.  Training is free of hidden
/// state: identical inputs and answers give identical results.
pub proof fn lemma_run_deterministic(s: Step, es: Seq<Event>, w1: Seq<Scalar>, w2: Seq<Scalar>)
    requires
        runs_to(s, es, w1),
        runs_to(s, es, w2),
    ensures
        w1 == w2,
    decreases es.len(),
{
    let done1 = es.len() == 1 && exists|wv: Vec<Scalar>|
        (#[trigger] transition(s, es[0], StepOutcome::Done(wv))) && wv@ == w1;
    let done2 = es.len() == 1 && exists|wv: Vec<Scalar>|
        (#[trigger] transition(s, es[0], StepOutcome::Done(wv))) && wv@ == w2;
    if done1 {
        let wv1 = choose|wv: Vec<Scalar>|
            (#[trigger] transition(s, es[0], StepOutcome::Done(wv))) && wv@ == w1;
        if done2 {
            let wv2 = choose|wv: Vec<Scalar>|
                (#[trigger] transition(s, es[0], StepOutcome::Done(wv))) && wv@ == w2;
            lemma_step_deterministic(s, es[0], StepOutcome::Done(wv1), StepOutcome::Done(wv2));
        } else {
            let (s2, a) = choose|s2: Step, a: Action|
                (#[trigger] transition(s, es[0], StepOutcome::Running(s2, a))) && runs_to(
                    s2,
                    es.drop_first(),
                    w2,
                );
            lemma_step_deterministic(s, es[0], StepOutcome::Done(wv1), StepOutcome::Running(s2, a));
        }
    } else {
        let (s2a, aa) = choose|s2: Step, a: Action|
            (#[trigger] transition(s, es[0], StepOutcome::Running(s2, a))) && runs_to(
                s2,
                es.drop_first(),
                w1,
            );
        if done2 {
            let wv2 = choose|wv: Vec<Scalar>|
                (#[trigger] transition(s, es[0], StepOutcome::Done(wv))) && wv@ == w2;
            lemma_step_deterministic(
                s,
                es[0],
                StepOutcome::Running(s2a, aa),
                StepOutcome::Done(wv2),
            );
        } else {
            let (s2b, ab) = choose|s2: Step, a: Action|
                (#[trigger] transition(s, es[0], StepOutcome::Running(s2, a))) && runs_to(
                    s2,
                    es.drop_first(),
                    w2,
                );
            lemma_step_deterministic(
                s,
                es[0],
                StepOutcome::Running(s2a, aa),
                StepOutcome::Running(s2b, ab),
            );
            lemma_runs_to_congruence(s2b, s2a, es.drop_first(), w2);
            lemma_run_deterministic(s2a, es.drop_first(), w1, w2);
        }
    }
}

} // verus!


verus! {

/// View-level equality of two training runs in flight.
pub open spec fn training_eq(t1: Training, t2: Training) -> bool {
    &&& exs_eq(t1.examples@, t2.examples@)
    &&& t1.eta == t2.eta
    &&& t1.policy == t2.policy
    &&& t1.threshold == t2.threshold
    &&& t1.epochs == t2.epochs
    &&& t1.cur_epoch == t2.cur_epoch
    &&& t1.cur_index == t2.cur_index
    &&& step_eq(t1.inner, t2.inner)
}

/// View-level equality of two loop outcomes.
pub open spec fn train_outcome_eq(r1: TrainOutcome, r2: TrainOutcome) -> bool {
    match (r1, r2) {
        (TrainOutcome::Running(t1, a1), TrainOutcome::Running(t2, a2)) => training_eq(t1, t2)
            && a1 == a2,
        (TrainOutcome::Done(w1), TrainOutcome::Done(w2)) => w1@ == w2@,
        _ => false,
    }
}

/// A single loop transition is deterministic: from one run and one event,
/// any two permitted outcomes agree (view-for-view).
pub proof fn lemma_train_deterministic(t: Training, e: Event, r1: TrainOutcome, r2: TrainOutcome)
    requires
        train_transition(t, e, r1),
        train_transition(t, e, r2),
    ensures
        train_outcome_eq(r1, r2),
{
    match (r1, r2) {
        (TrainOutcome::Running(t1, a1), TrainOutcome::Running(t2, a2)) => {
            if step_finishing(t.inner, e) {
                assert(t1.inner.built@ =~= t2.inner.built@);
            } else {
                lemma_step_deterministic(
                    t.inner,
                    e,
                    StepOutcome::Running(t1.inner, a1),
                    StepOutcome::Running(t2.inner, a2),
                );
            }
            assert(exs_eq(t1.examples@, t2.examples@));
        },
        _ => {},
    }
}

} // verus!

verus! {

/// A whole training run: from the run `t`, consuming the events `es` one
/// transition at a time ends the run with the final weight sequence `w`.
pub open spec fn train_runs_to(t: Training, es: Seq<Event>, w: Seq<Scalar>) -> bool
    decreases es.len(),
{
    es.len() > 0 && {
        ||| (es.len() == 1 && exists|wv: Vec<Scalar>|
            (#[trigger] train_transition(t, es[0], TrainOutcome::Done(wv))) && wv@ == w)
        ||| (exists|t2: Training, a: Action|
            (#[trigger] train_transition(t, es[0], TrainOutcome::Running(t2, a))) && train_runs_to(
                t2,
                es.drop_first(),
                w,
            ))
    }
}

/// Loop transitions respect view-level equality of runs.
pub proof fn lemma_train_transition_congruence(
    t1: Training,
    t2: Training,
    e: Event,
    r: TrainOutcome,
)
    requires
        training_eq(t1, t2),
        train_transition(t1, e, r),
    ensures
        train_transition(t2, e, r),
{
    if !step_finishing(t1.inner, e) {
        match r {
            TrainOutcome::Running(t3, a) => {
                lemma_transition_congruence(
                    t1.inner,
                    t2.inner,
                    e,
                    StepOutcome::Running(t3.inner, a),
                );
            },
            _ => {},
        }
    } else {
        assert(t1.examples@.len() == t2.examples@.len());
        assert(finished_view(t1.inner, e) == finished_view(t2.inner, e));
        if t1.cur_index + 1 < t1.examples@.len() {
            assert(t1.examples@[t1.cur_index + 1].inputs@ == t2.examples@[t1.cur_index
                + 1].inputs@);
            assert(t1.examples@[t1.cur_index + 1].target == t2.examples@[t1.cur_index + 1].target);
        } else if t1.cur_epoch + 1 < t1.epochs {
            if t1.examples@.len() > 0 {
                assert(t1.examples@[0].inputs@ == t2.examples@[0].inputs@);
                assert(t1.examples@[0].target == t2.examples@[0].target);
            } else {
                assert(t1.examples@ =~= t2.examples@);
            }
        }
    }
}

/// Whole training runs respect view-level equality of runs.
pub proof fn lemma_train_runs_congruence(t1: Training, t2: Training, es: Seq<Event>, w: Seq<Scalar>)
    requires
        training_eq(t1, t2),
        train_runs_to(t1, es, w),
    ensures
        train_runs_to(t2, es, w),
{
    if es.len() == 1 && exists|wv: Vec<Scalar>|
        (#[trigger] train_transition(t1, es[0], TrainOutcome::Done(wv))) && wv@ == w {
        let wv = choose|wv: Vec<Scalar>|
            (#[trigger] train_transition(t1, es[0], TrainOutcome::Done(wv))) && wv@ == w;
        lemma_train_transition_congruence(t1, t2, es[0], TrainOutcome::Done(wv));
        assert(train_transition(t2, es[0], TrainOutcome::Done(wv)) && wv@ == w);
    } else {
        let (t3, a) = choose|t3: Training, a: Action|
            (#[trigger] train_transition(t1, es[0], TrainOutcome::Running(t3, a))) && train_runs_to(
                t3,
                es.drop_first(),
                w,
            );
        lemma_train_transition_congruence(t1, t2, es[0], TrainOutcome::Running(t3, a));
        assert(train_transition(t2, es[0], TrainOutcome::Running(t3, a)) && train_runs_to(
            t3,
            es.drop_first(),
            w,
        ));
    }
}

/// No early exit: the loop finishes only when the step in flight
/// finishes on the last example of the last epoch — updates having
/// stopped does not shorten the run.
pub proof fn lemma_no_early_finish(t: Training, e: Event, w: Vec<Scalar>)
    requires
        train_transition(t, e, TrainOutcome::Done(w)),
    ensures
        step_finishing(t.inner, e),
        t.cur_index + 1 >= t.examples@.len(),
        t.cur_epoch + 1 >= t.epochs,
{
}

/// Determinism of a whole training run: from one run, one event sequence
/// can produce only one final weight sequence.  Two runs over identical
/// datasets, hyperparameters and arithmetic answers end identically —
/// the trainer holds no hidden state.
pub proof fn lemma_train_run_deterministic(
    t: Training,
    es: Seq<Event>,
    w1: Seq<Scalar>,
    w2: Seq<Scalar>,
)
    requires
        train_runs_to(t, es, w1),
        train_runs_to(t, es, w2),
    ensures
        w1 == w2,
    decreases es.len(),
{
    let done1 = es.len() == 1 && exists|wv: Vec<Scalar>|
        (#[trigger] train_transition(t, es[0], TrainOutcome::Done(wv))) && wv@ == w1;
    let done2 = es.len() == 1 && exists|wv: Vec<Scalar>|
        (#[trigger] train_transition(t, es[0], TrainOutcome::Done(wv))) && wv@ == w2;
    if done1 {
        let wv1 = choose|wv: Vec<Scalar>|
            (#[trigger] train_transition(t, es[0], TrainOutcome::Done(wv))) && wv@ == w1;
        if done2 {
            let wv2 = choose|wv: Vec<Scalar>|
                (#[trigger] train_transition(t, es[0], TrainOutcome::Done(wv))) && wv@ == w2;
            lemma_train_deterministic(t, es[0], TrainOutcome::Done(wv1), TrainOutcome::Done(wv2));
        } else {
            let (t2, a) = choose|t2: Training, a: Action|
                (#[trigger] train_transition(t, es[0], TrainOutcome::Running(t2, a)))
                    && train_runs_to(t2, es.drop_first(), w2);
            lemma_train_deterministic(
                t,
                es[0],
                TrainOutcome::Done(wv1),
                TrainOutcome::Running(t2, a),
            );
        }
    } else {
        let (t2a, aa) = choose|t2: Training, a: Action|
            (#[trigger] train_transition(t, es[0], TrainOutcome::Running(t2, a))) && train_runs_to(
                t2,
                es.drop_first(),
                w1,
            );
        if done2 {
            let wv2 = choose|wv: Vec<Scalar>|
                (#[trigger] train_transition(t, es[0], TrainOutcome::Done(wv))) && wv@ == w2;
            lemma_train_deterministic(
                t,
                es[0],
                TrainOutcome::Running(t2a, aa),
                TrainOutcome::Done(wv2),
            );
        } else {
            let (t2b, ab) = choose|t2: Training, a: Action|
                (#[trigger] train_transition(t, es[0], TrainOutcome::Running(t2, a)))
                    && train_runs_to(t2, es.drop_first(), w2);
            lemma_train_deterministic(
                t,
                es[0],
                TrainOutcome::Running(t2a, aa),
                TrainOutcome::Running(t2b, ab),
            );
            lemma_train_runs_congruence(t2b, t2a, es.drop_first(), w2);
            lemma_train_run_deterministic(t2a, es.drop_first(), w1, w2);
        }
    }
}

} // verus!
