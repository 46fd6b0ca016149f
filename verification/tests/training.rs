// End-to-end tests of the trainer: the machines decide, and this driver
// performs every requested IEEE-754 double operation and feeds the answer
// back, exactly as a caller of the library does.

use perceptron::error::TrainError;
use perceptron::oracle::{Action, DiagRecord, Event};
use perceptron::scalar::Scalar;
use perceptron::step::{ActivationPolicy, Step, StepOutcome};
use perceptron::trainer::{Example, TrainOutcome, Training};

fn f(x: Scalar) -> f64 {
    f64::from_bits(x.bits)
}

fn s(v: f64) -> Scalar {
    Scalar { bits: v.to_bits() }
}

fn sigmoid(v: f64) -> f64 {
    1.0 / (1.0 + std::f64::consts::E.powf(-v))
}

fn answer(a: Action, trace: &mut Vec<DiagRecord>) -> Event {
    match a {
        Action::Mul(x, y) => Event::Val(s(f(x) * f(y))),
        Action::Add(x, y) => Event::Val(s(f(x) + f(y))),
        Action::Sub(x, y) => Event::Val(s(f(x) - f(y))),
        Action::Sigmoid(x) => Event::Val(s(sigmoid(f(x)))),
        Action::Gt(x, y) => Event::Truth(f(x) > f(y)),
        Action::EqCheck(x, y) => Event::Truth(f(x) == f(y)),
        Action::Emit(d) => {
            trace.push(d);
            Event::Ack
        }
    }
}

fn to_scalars(v: &[f64]) -> Vec<Scalar> {
    let mut r = Vec::new();
    for x in v {
        r.push(s(*x));
    }
    r
}

fn to_floats(v: &[Scalar]) -> Vec<f64> {
    let mut r = Vec::new();
    for x in v {
        r.push(f(*x));
    }
    r
}

fn make_examples(inputs: &[Vec<f64>], targets: &[f64]) -> Vec<Example> {
    let mut r = Vec::new();
    for k in 0..inputs.len() {
        r.push(Example::new(to_scalars(&inputs[k]), s(targets[k])));
    }
    r
}

fn train(
    inputs: &[Vec<f64>],
    targets: &[f64],
    eta: f64,
    weights: &[f64],
    epochs: u32,
    policy: ActivationPolicy,
    threshold: f64,
) -> (Vec<f64>, Vec<DiagRecord>) {
    let examples = make_examples(inputs, targets);
    let mut trace = Vec::new();
    let mut outcome =
        Training::start(examples, s(eta), to_scalars(weights), epochs, policy, s(threshold))
            .unwrap();
    loop {
        match outcome {
            TrainOutcome::Running(t, a) => {
                let e = answer(a, &mut trace);
                outcome = t.resume(e);
            }
            TrainOutcome::Done(w) => return (to_floats(&w), trace),
        }
    }
}

// Runs one perceptron step, also recording every requested action.
fn run_step(
    weights: &[f64],
    inputs: &[f64],
    target: f64,
    eta: f64,
    policy: ActivationPolicy,
    threshold: f64,
) -> (Vec<f64>, Vec<DiagRecord>, Vec<Action>) {
    let mut trace = Vec::new();
    let mut actions = Vec::new();
    let (st, first) = Step::start(
        to_scalars(weights),
        to_scalars(inputs),
        s(target),
        s(eta),
        policy,
        s(threshold),
    )
    .unwrap();
    actions.push(first);
    let mut cur = st;
    let mut act = first;
    loop {
        let e = answer(act, &mut trace);
        match cur.resume(e) {
            StepOutcome::Running(st2, a) => {
                actions.push(a);
                cur = st2;
                act = a;
            }
            StepOutcome::Done(w) => return (to_floats(&w), trace, actions),
        }
    }
}

// The same training arithmetic written directly over doubles, used to
// cross-check the machine-driven runs bit for bit.
fn plain_train(
    inputs: &[Vec<f64>],
    targets: &[f64],
    eta: f64,
    weights: &[f64],
    epochs: u32,
    policy: ActivationPolicy,
    threshold: f64,
) -> Vec<f64> {
    let mut w: Vec<f64> = weights.to_vec();
    for _ in 0..epochs {
        for k in 0..inputs.len() {
            let x = &inputs[k];
            let mut activity = 0.0;
            for i in 0..w.len() {
                activity += w[i] * x[i];
            }
            let out = match policy {
                ActivationPolicy::PlainSigmoid => sigmoid(activity),
                ActivationPolicy::ThresholdedSigmoid => sigmoid(activity) * threshold,
                ActivationPolicy::BinaryStep => {
                    if activity > threshold {
                        1.0
                    } else {
                        0.0
                    }
                }
            };
            if out != targets[k] {
                let end = w.len() - 1;
                let diff = targets[k] - out;
                let eta_diff = eta * diff;
                for i in 0..end {
                    w[i] = w[i] + eta_diff * x[i];
                }
                w[end] = w[end] + diff;
            }
        }
    }
    w
}

#[test]
fn activity_is_the_dot_product() {
    let weights = [0.5, -1.25, 2.0];
    let inputs = [2.0, 3.0, 1.0];
    let (_, trace, _) = run_step(&weights, &inputs, 0.9, 0.01, ActivationPolicy::PlainSigmoid, 1.0);
    assert_eq!(trace.len(), 1);
    let mut expected = 0.0;
    for i in 0..weights.len() {
        expected += weights[i] * inputs[i];
    }
    assert_eq!(trace[0].activity.bits, expected.to_bits());
    assert_eq!(trace[0].target.bits, (0.9f64).to_bits());
}

#[test]
fn mismatched_lengths_refuse_a_step() {
    let r = Step::start(
        to_scalars(&[1.0, 2.0]),
        to_scalars(&[1.0, 2.0, 3.0]),
        s(0.5),
        s(0.01),
        ActivationPolicy::PlainSigmoid,
        s(1.0),
    );
    assert!(matches!(r, Err(TrainError::DimensionMismatch)));
}

#[test]
fn mismatched_lengths_refuse_a_run() {
    let examples = vec![
        Example::new(to_scalars(&[1.0, 0.0, 1.0]), s(1.0)),
        Example::new(to_scalars(&[1.0, 0.0]), s(1.0)),
    ];
    let r = Training::start(
        examples,
        s(0.01),
        to_scalars(&[1.0, 1.0, 0.01]),
        5,
        ActivationPolicy::BinaryStep,
        s(0.05),
    );
    assert!(matches!(r, Err(TrainError::DimensionMismatch)));
}

#[test]
fn plain_sigmoid_of_zero_is_half() {
    // weights [0.0], inputs [0.0]: the activity is exactly 0.0.
    let (_, trace, _) = run_step(&[0.0], &[0.0], 0.8, 0.01, ActivationPolicy::PlainSigmoid, 7.5);
    assert_eq!(trace[0].activation_output.bits, (0.5f64).to_bits());
}

#[test]
fn plain_sigmoid_is_increasing_and_within_unit_interval() {
    let samples = [-30.0, -20.0, -1.0, -1e-9, 0.0, 1e-9, 1.0, 20.0, 30.0];
    for k in 1..samples.len() {
        assert!(sigmoid(samples[k - 1]) < sigmoid(samples[k]));
    }
    for v in samples {
        let y = sigmoid(v);
        assert!(y > 0.0 && y < 1.0);
    }
}

#[test]
fn binary_step_is_one_exactly_above_the_threshold() {
    let cases = [
        (0.06, 1.0),
        (0.05, 0.0),
        (0.049, 0.0),
        (-3.0, 0.0),
        (100.0, 1.0),
    ];
    for (activity, expected) in cases {
        // weights [activity], inputs [1.0]: the activity is the weight itself.
        let (_, trace, _) =
            run_step(&[activity], &[1.0], 0.5, 0.01, ActivationPolicy::BinaryStep, 0.05);
        assert_eq!(trace[0].activation_output.bits, (expected as f64).to_bits());
    }
}

#[test]
fn thresholded_sigmoid_scales_by_the_threshold() {
    let (_, trace, _) =
        run_step(&[1.5, 0.25], &[2.0, 1.0], 0.9, 0.01, ActivationPolicy::ThresholdedSigmoid, 2.0);
    let activity = 1.5 * 2.0 + 0.25 * 1.0;
    assert_eq!(trace[0].activation_output.bits, (sigmoid(activity) * 2.0).to_bits());
}

#[test]
fn bias_update_adds_the_raw_difference() {
    let weights = [1.0, 1.0, 0.01];
    let inputs = [1.0, 0.0, 1.0];
    let target = 0.8;
    let eta = 0.01;
    let (w2, trace, actions) =
        run_step(&weights, &inputs, target, eta, ActivationPolicy::PlainSigmoid, 1.0);
    let out = f(trace[0].activation_output);
    let diff = target - out;
    // The new bias is old_bias + diff exactly: no eta, no input factor.
    assert_eq!(w2[2].to_bits(), (0.01 + diff).to_bits());
    // The request that produced it names exactly those operands.
    let bias_request = actions[actions.len() - 1];
    assert_eq!(bias_request, Action::Add(s(0.01), s(diff)));
    // Feature slots do carry eta and the input.
    let eta_diff = eta * diff;
    assert_eq!(w2[0].to_bits(), (1.0 + eta_diff * 1.0).to_bits());
    assert_eq!(w2[1].to_bits(), (1.0 + eta_diff * 0.0).to_bits());
}

#[test]
fn exact_match_leaves_weights_untouched() {
    // activity 0.5*1.0 + 0.7*1.0 = 1.2 > 0.05, activation 1.0 == target.
    let weights = [0.5, 0.7];
    let (w2, trace, actions) =
        run_step(&weights, &[1.0, 1.0], 1.0, 0.01, ActivationPolicy::BinaryStep, 0.05);
    assert_eq!(trace[0].activation_output.bits, (1.0f64).to_bits());
    assert_eq!(w2.len(), 2);
    assert_eq!(w2[0].to_bits(), (0.5f64).to_bits());
    assert_eq!(w2[1].to_bits(), (0.7f64).to_bits());
    // The step ends right after the equality comparison: no update request.
    assert!(matches!(actions[actions.len() - 1], Action::EqCheck(_, _)));
}

#[test]
fn bias_only_vector_still_updates() {
    // One slot: it is the bias slot, and gets the raw-difference rule.
    let (w2, trace, _) = run_step(&[0.5], &[1.0], 0.0, 0.25, ActivationPolicy::BinaryStep, 0.05);
    assert_eq!(trace[0].activation_output.bits, (1.0f64).to_bits());
    assert_eq!(w2.len(), 1);
    assert_eq!(w2[0].to_bits(), (0.5f64 + (0.0 - 1.0)).to_bits());
}

#[test]
fn single_example_sigmoid_run_updates_every_step() {
    let inputs = vec![vec![1.0, 0.0, 1.0]];
    let targets = [0.8];
    let start = [1.0, 1.0, 0.01];
    let (w, trace) =
        train(&inputs, &targets, 0.01, &start, 20, ActivationPolicy::PlainSigmoid, 1.0);
    assert_eq!(trace.len(), 20);
    // The sigmoid output never equals 0.8 exactly, so every step updates.
    for d in &trace {
        assert!(f(d.activation_output) != 0.8);
    }
    assert!(w != start.to_vec());
    // The machine-driven run computes exactly what the arithmetic
    // prescribes, bit for bit.
    let direct = plain_train(&inputs, &targets, 0.01, &start, 20, ActivationPolicy::PlainSigmoid, 1.0);
    for i in 0..3 {
        assert_eq!(w[i].to_bits(), direct[i].to_bits());
    }
}

fn boolean_dataset() -> Vec<Vec<f64>> {
    vec![
        vec![0.0, 0.0, 1.0],
        vec![0.0, 1.0, 1.0],
        vec![1.0, 0.0, 1.0],
        vec![1.0, 1.0, 1.0],
    ]
}

fn converges_to(inputs: &[Vec<f64>], targets: &[f64], w: &[f64], threshold: f64) {
    for k in 0..inputs.len() {
        let mut activity = 0.0;
        for i in 0..w.len() {
            activity += w[i] * inputs[k][i];
        }
        let out = if activity > threshold { 1.0 } else { 0.0 };
        assert_eq!(out, targets[k]);
    }
}

#[test]
fn or_training_converges() {
    let inputs = boolean_dataset();
    let targets = [0.0, 1.0, 1.0, 1.0];
    let (w, _) = train(
        &inputs,
        &targets,
        0.01,
        &[1.0, 1.0, 0.01],
        50,
        ActivationPolicy::BinaryStep,
        0.05,
    );
    converges_to(&inputs, &targets, &w, 0.05);
    let direct = plain_train(
        &inputs,
        &targets,
        0.01,
        &[1.0, 1.0, 0.01],
        50,
        ActivationPolicy::BinaryStep,
        0.05,
    );
    for i in 0..3 {
        assert_eq!(w[i].to_bits(), direct[i].to_bits());
    }
}

#[test]
fn and_training_converges() {
    let inputs = boolean_dataset();
    let targets = [0.0, 0.0, 0.0, 1.0];
    let (w, _) = train(
        &inputs,
        &targets,
        0.01,
        &[1.0, 1.0, 0.01],
        50,
        ActivationPolicy::BinaryStep,
        0.05,
    );
    converges_to(&inputs, &targets, &w, 0.05);
}

#[test]
fn identical_runs_are_identical() {
    let inputs = vec![vec![1.0, 0.0, 1.0]];
    let targets = [0.8];
    let (w1, t1) =
        train(&inputs, &targets, 0.01, &[1.0, 1.0, 0.01], 20, ActivationPolicy::PlainSigmoid, 1.0);
    let (w2, t2) =
        train(&inputs, &targets, 0.01, &[1.0, 1.0, 0.01], 20, ActivationPolicy::PlainSigmoid, 1.0);
    assert_eq!(t1, t2);
    assert_eq!(w1.len(), w2.len());
    for i in 0..w1.len() {
        assert_eq!(w1[i].to_bits(), w2[i].to_bits());
    }
}

#[test]
fn zero_epochs_return_the_weights_unchanged() {
    let examples = make_examples(&boolean_dataset(), &[0.0, 1.0, 1.0, 1.0]);
    let r = Training::start(
        examples,
        s(0.01),
        to_scalars(&[1.0, 1.0, 0.01]),
        0,
        ActivationPolicy::BinaryStep,
        s(0.05),
    )
    .unwrap();
    match r {
        TrainOutcome::Done(w) => {
            assert_eq!(to_floats(&w), vec![1.0, 1.0, 0.01]);
        }
        TrainOutcome::Running(_, _) => panic!("a zero-epoch run must finish at once"),
    }
}

#[test]
fn empty_dataset_returns_the_weights_unchanged() {
    let r = Training::start(
        Vec::new(),
        s(0.01),
        to_scalars(&[1.0, 1.0, 0.01]),
        50,
        ActivationPolicy::BinaryStep,
        s(0.05),
    )
    .unwrap();
    match r {
        TrainOutcome::Done(w) => {
            assert_eq!(to_floats(&w), vec![1.0, 1.0, 0.01]);
        }
        TrainOutcome::Running(_, _) => panic!("a run over no examples must finish at once"),
    }
}

#[test]
fn weights_thread_across_epoch_boundaries() {
    // Two epochs over one example equal one epoch over the example twice.
    let inputs = vec![vec![1.0, 0.0, 1.0]];
    let targets = [0.8];
    let twice_inputs = vec![vec![1.0, 0.0, 1.0], vec![1.0, 0.0, 1.0]];
    let twice_targets = [0.8, 0.8];
    let (w1, _) =
        train(&inputs, &targets, 0.01, &[1.0, 1.0, 0.01], 2, ActivationPolicy::PlainSigmoid, 1.0);
    let (w2, _) = train(
        &twice_inputs,
        &twice_targets,
        0.01,
        &[1.0, 1.0, 0.01],
        1,
        ActivationPolicy::PlainSigmoid,
        1.0,
    );
    for i in 0..3 {
        assert_eq!(w1[i].to_bits(), w2[i].to_bits());
    }
}

#[test]
fn nan_propagates_unmodified() {
    // A NaN weight poisons the activity; NaN equals nothing, so the step
    // updates, and the NaN flows through the update arithmetic untouched
    // by any special-casing.
    let (w2, trace, _) =
        run_step(&[f64::NAN, 1.0], &[1.0, 1.0], 0.5, 0.01, ActivationPolicy::PlainSigmoid, 1.0);
    assert!(f(trace[0].activity).is_nan());
    assert!(w2.iter().all(|v| v.is_nan()));
}

#[test]
fn step_requests_operations_in_training_order() {
    // A mismatched plain-sigmoid step over three slots asks for exactly:
    // the three products and three sums of the activity, the sigmoid, the
    // diagnostic, the equality comparison, the difference, eta * diff,
    // then per feature slot a product and a sum, and last the bias sum.
    let (_, _, actions) =
        run_step(&[1.0, 1.0, 0.01], &[1.0, 0.0, 1.0], 0.8, 0.01, ActivationPolicy::PlainSigmoid, 1.0);
    assert_eq!(actions.len(), 16);
    assert!(matches!(actions[0], Action::Mul(_, _)));
    assert!(matches!(actions[1], Action::Add(_, _)));
    assert!(matches!(actions[2], Action::Mul(_, _)));
    assert!(matches!(actions[3], Action::Add(_, _)));
    assert!(matches!(actions[4], Action::Mul(_, _)));
    assert!(matches!(actions[5], Action::Add(_, _)));
    assert!(matches!(actions[6], Action::Sigmoid(_)));
    assert!(matches!(actions[7], Action::Emit(_)));
    assert!(matches!(actions[8], Action::EqCheck(_, _)));
    assert!(matches!(actions[9], Action::Sub(_, _)));
    assert!(matches!(actions[10], Action::Mul(_, _)));
    assert!(matches!(actions[11], Action::Mul(_, _)));
    assert!(matches!(actions[12], Action::Add(_, _)));
    assert!(matches!(actions[13], Action::Mul(_, _)));
    assert!(matches!(actions[14], Action::Add(_, _)));
    assert!(matches!(actions[15], Action::Add(_, _)));
}
