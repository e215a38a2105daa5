//! Sweeps: two candidates compared on random workloads of growing size.
//!
//! A sweep walks ten sizes from the smallest on, a tenth of the range apart.
//! At each size it runs five trials; in each trial one workload is drawn and
//! handed to both candidates.

use crate::report::{
    decimal,
    decimal_text,
    size_suffix,
    sized_label,
    status,
    status_text,
    status_two,
    status_two_text,
};
use crate::series::{avgu, series_mean};
use crate::timer::measure_time;
use crate::workload::{gen_bytes, gen_str, is_random_text};
use vstd::prelude::*;
use vstd::string::*;

verus! {

/// How many sizes a sweep visits.
pub const STEPS: usize = 10;

/// How many trials a sweep runs at each size.
pub const TRIALS: usize = 5;

/// A range of sizes that cannot be swept: it is empty, or so narrow that a
/// tenth of it is no whole unit.
#[derive(Debug, Clone, Copy, PartialEq, Eq, Structural)]
pub struct InvalidSweepRangeError {
    /// The smallest size that was asked for.
    pub min_size: usize,
    /// The largest size that was asked for.
    pub max_size: usize,
}

/// Whether the sizes from `min` to `max` can be swept: a tenth of the range
/// is at least one.
pub open spec fn valid_range(min: nat, max: nat) -> bool {
    min + STEPS <= max
}

/// The distance between two sizes that follow each other: a tenth of the
/// range, the remainder dropped.
pub open spec fn step_increment(min: nat, max: nat) -> nat {
    if min <= max {
        ((max - min) / STEPS as int) as nat
    } else {
        0
    }
}

/// The size of step `i`, counted from zero.
pub open spec fn step_size(min: nat, max: nat, i: nat) -> nat {
    min + i * step_increment(min, max)
}

/// A range can be swept exactly when it is not empty and the distance
/// between its steps is at least one.
pub proof fn lemma_valid_range(min: nat, max: nat)
    ensures
        valid_range(min, max) <==> min <= max && step_increment(min, max) >= 1,
{
}

/// In a valid range the size of each of the ten steps lies within the range.
pub proof fn lemma_step_in_range(min: nat, max: nat, i: nat)
    requires
        valid_range(min, max),
        i < STEPS,
    ensures
        min <= step_size(min, max, i) <= max,
{
    let inc = step_increment(min, max);
    assert(inc * 10 <= max - min);
    assert(0 <= i * inc <= 9 * inc) by (nonlinear_arith)
        requires
            inc >= 0,
            0 <= i <= 9,
    ;
}

/// In a valid range the sizes of the steps grow strictly.
pub proof fn lemma_steps_grow(min: nat, max: nat, i: nat, j: nat)
    requires
        valid_range(min, max),
        i < j,
    ensures
        step_size(min, max, i) < step_size(min, max, j),
{
    let inc = step_increment(min, max);
    assert(inc >= 1);
    assert(i * inc < j * inc) by (nonlinear_arith)
        requires
            inc >= 1,
            0 <= i < j,
    ;
}

/// A range ten wide is swept one by one, and the last size is one below the
/// largest.
pub proof fn lemma_step_sizes_of_ten(min: nat, i: nat)
    requires
        i < STEPS,
    ensures
        step_size(min, min + 10, i) == min + i,
{
    assert(step_increment(min, min + 10) == 1);
    assert(i * 1 == i) by (nonlinear_arith);
}

/// The sizes of the ten steps of a sweep from `min_size` to `max_size`, or
/// the error for a range that cannot be swept.
pub fn sweep_sizes(min_size: usize, max_size: usize) -> (plan: Result<
    Vec<usize>,
    InvalidSweepRangeError,
>)
    ensures
        !valid_range(min_size as nat, max_size as nat) ==> plan == Err::<
            Vec<usize>,
            InvalidSweepRangeError,
        >((InvalidSweepRangeError { min_size, max_size })),
        valid_range(min_size as nat, max_size as nat) ==> plan.is_ok() && plan.unwrap()@.len()
            == STEPS && forall|i: int|
            0 <= i < STEPS ==> #[trigger] plan.unwrap()@[i] as nat == step_size(
                min_size as nat,
                max_size as nat,
                i as nat,
            ),
{
    if max_size < min_size || max_size - min_size < STEPS {
        return Err(InvalidSweepRangeError { min_size, max_size });
    }
    let increment: usize = (max_size - min_size) / STEPS;
    let mut sizes: Vec<usize> = Vec::new();
    let mut size: usize = min_size;
    let mut step: usize = 0;
    while step < STEPS
        invariant
            valid_range(min_size as nat, max_size as nat),
            increment as nat == step_increment(min_size as nat, max_size as nat),
            step <= STEPS,
            sizes@.len() == step,
            size as nat == step_size(min_size as nat, max_size as nat, step as nat),
            forall|i: int|
                0 <= i < step ==> #[trigger] sizes@[i] as nat == step_size(
                    min_size as nat,
                    max_size as nat,
                    i as nat,
                ),
        decreases STEPS - step,
    {
        sizes.push(size);
        proof {
            let inc = increment as nat;
            assert((step + 1) * inc == step * inc + inc) by (nonlinear_arith);
            assert((step + 1) * inc <= 10 * inc) by (nonlinear_arith)
                requires
                    step + 1 <= 10,
            ;
            assert(inc * 10 <= max_size - min_size);
        }
        size = size + increment;
        step = step + 1;
    }
    Ok(sizes)
}

/// The line that announces a sweep over workloads called `what`.
pub open spec fn sweep_header_text(what: Seq<char>, min: nat, max: nat) -> Seq<char> {
    status_text(
        "Sweeping across "@ + what + " of "@ + decimal_text(min) + " to "@ + decimal_text(max)
            + " ("@ + decimal_text(TRIALS as nat) + " tests per step)..."@,
    )
}

/// Builds the line that announces a sweep over workloads called `what`.
pub fn sweep_header(what: &str, min_size: usize, max_size: usize) -> (line: String)
    ensures
        line@ == sweep_header_text(what@, min_size as nat, max_size as nat),
{
    let mut body: String = String::from_str("Sweeping across ");
    body.append(what);
    body.append(" of ");
    let low: String = decimal(min_size as u64);
    body.append(low.as_str());
    body.append(" to ");
    let high: String = decimal(max_size as u64);
    body.append(high.as_str());
    body.append(" (");
    let trials: String = decimal(TRIALS as u64);
    body.append(trials.as_str());
    body.append(" tests per step)...");
    status(body.as_str())
}

/// One step of a sweep: its size, the trial series of the two candidates at
/// that size, and the line that reports their means.
#[derive(Debug, Clone)]
pub struct SweepStep {
    /// The size of the workloads of this step.
    pub size: usize,
    /// The durations of the first candidate's calls, in the order of the trials.
    pub times_a: Vec<u64>,
    /// The durations of the second candidate's calls, in the order of the trials.
    pub times_b: Vec<u64>,
    /// The status line with the means of the two series.
    pub line: String,
}

impl SweepStep {
    /// Whether this is the outcome of the step at `size` of a sweep
    /// described as `desc`: one duration for each trial in either series,
    /// and a line that reports the two means under the description and the
    /// size.
    pub open spec fn reports(&self, desc: Seq<char>, size: nat) -> bool {
        &&& self.size as nat == size
        &&& self.times_a@.len() == TRIALS
        &&& self.times_b@.len() == TRIALS
        &&& self.line@ == status_two_text(
            desc + size_suffix(size),
            series_mean(self.times_a@),
            series_mean(self.times_b@),
        )
    }
}

/// The outcome of a sweep: the line that announces it, and its steps in the
/// order of their sizes.
#[derive(Debug, Clone)]
pub struct Sweep {
    /// The line that announces the range and the trials for each step.
    pub header: String,
    /// The steps, smallest size first.
    pub steps: Vec<SweepStep>,
}

impl Sweep {
    /// Whether this is the outcome of sweeping workloads called `what` from
    /// `min` to `max` under the description `desc`: the header announces the
    /// range, and there are ten steps, each at its size.
    pub open spec fn covers(&self, desc: Seq<char>, what: Seq<char>, min: nat, max: nat) -> bool {
        &&& self.header@ == sweep_header_text(what, min, max)
        &&& self.steps@.len() == STEPS
        &&& forall|i: int|
            0 <= i < STEPS ==> (#[trigger] self.steps@[i]).reports(desc, step_size(min, max, i as nat))
    }
}

/// Reports the means of the two trial series of the step at `size`.
pub fn report_step(desc: &str, size: usize, times_a: Vec<u64>, times_b: Vec<u64>) -> (step:
    SweepStep)
    requires
        times_a@.len() > 0,
        times_b@.len() > 0,
    ensures
        step.size == size,
        step.times_a@ == times_a@,
        step.times_b@ == times_b@,
        step.line@ == status_two_text(
            desc@ + size_suffix(size as nat),
            series_mean(times_a@),
            series_mean(times_b@),
        ),
{
    let label: String = sized_label(desc, size);
    let mean_a: u64 = avgu(times_a.as_slice());
    let mean_b: u64 = avgu(times_b.as_slice());
    let line: String = status_two(label.as_str(), mean_a, mean_b);
    SweepStep { size, times_a, times_b, line }
}

/// Whether a unary action has run on `input`: some value meets what it
/// promises of that input.
pub open spec fn has_run_on<W, X, F: Fn(W) -> X>(action: F, input: W) -> bool {
    exists|value: X| action.ensures((input,), value)
}

/// Whether both candidates have run on the text `text`.
pub open spec fn both_ran_on_text<X, Y, A: Fn(String) -> X, B: Fn(String) -> Y>(
    action_a: A,
    action_b: B,
    text: Seq<char>,
) -> bool {
    exists|first: String, second: String|
        first@ == text && second@ == text && #[trigger] has_run_on(action_a, first)
            && #[trigger] has_run_on(action_b, second)
}

/// Whether both candidates have run on the bytes `bytes`.
pub open spec fn both_ran_on_bytes<X, Y, A: Fn(Vec<u8>) -> X, B: Fn(Vec<u8>) -> Y>(
    action_a: A,
    action_b: B,
    bytes: Seq<u8>,
) -> bool {
    exists|first: Vec<u8>, second: Vec<u8>|
        first@ == bytes && second@ == bytes && #[trigger] has_run_on(action_a, first)
            && #[trigger] has_run_on(action_b, second)
}

/// Whether `action` may be called on every text of letters and digits
/// whose length lies from `min` to `max`.
pub open spec fn takes_texts<X, A: Fn(String) -> X>(action: A, min: nat, max: nat) -> bool {
    forall|text: String|
        min <= text@.len() <= max && is_random_text(text@, text@.len())
            ==> #[trigger] action.requires((text,))
}

/// Whether `action` may be called on all bytes whose number lies from `min`
/// to `max`.
pub open spec fn takes_bytes<X, A: Fn(Vec<u8>) -> X>(action: A, min: nat, max: nat) -> bool {
    forall|bytes: Vec<u8>| min <= bytes@.len() <= max ==> #[trigger] action.requires((bytes,))
}

/// One trial on a text: times `action_a` on `text`, then `action_b` on a
/// copy of it, and returns the two durations in that order.
pub fn trial_on_text<X, Y, A: Fn(String) -> X, B: Fn(String) -> Y>(
    action_a: &A,
    action_b: &B,
    text: String,
) -> (times: (u64, u64))
    requires
        forall|input: String| input@ == text@ ==> #[trigger] action_a.requires((input,)),
        forall|input: String| input@ == text@ ==> #[trigger] action_b.requires((input,)),
    ensures
        both_ran_on_text(*action_a, *action_b, text@),
{
    let copy: String = text.clone();
    let run_a = || -> (value: X)
        ensures
            action_a.ensures((text,), value),
        { action_a(text) };
    let first: u64 = measure_time(run_a);
    let run_b = || -> (value: Y)
        ensures
            action_b.ensures((copy,), value),
        { action_b(copy) };
    let second: u64 = measure_time(run_b);
    proof {
        assert(has_run_on(*action_a, text));
        assert(has_run_on(*action_b, copy));
    }
    (first, second)
}

/// One trial on bytes: times `action_a` on `bytes`, then `action_b` on a
/// copy of them, and returns the two durations in that order.
pub fn trial_on_bytes<X, Y, A: Fn(Vec<u8>) -> X, B: Fn(Vec<u8>) -> Y>(
    action_a: &A,
    action_b: &B,
    bytes: Vec<u8>,
) -> (times: (u64, u64))
    requires
        forall|input: Vec<u8>| input@ == bytes@ ==> #[trigger] action_a.requires((input,)),
        forall|input: Vec<u8>| input@ == bytes@ ==> #[trigger] action_b.requires((input,)),
    ensures
        both_ran_on_bytes(*action_a, *action_b, bytes@),
{
    let copy: Vec<u8> = bytes.clone();
    assert(copy@ =~= bytes@);
    let run_a = || -> (value: X)
        ensures
            action_a.ensures((bytes,), value),
        { action_a(bytes) };
    let first: u64 = measure_time(run_a);
    let run_b = || -> (value: Y)
        ensures
            action_b.ensures((copy,), value),
        { action_b(copy) };
    let second: u64 = measure_time(run_b);
    proof {
        assert(has_run_on(*action_a, bytes));
        assert(has_run_on(*action_b, copy));
    }
    (first, second)
}

/// Whether both candidates have run on one random text of `size` letters
/// and digits.
pub open spec fn texts_fed<X, Y, A: Fn(String) -> X, B: Fn(String) -> Y>(
    action_a: A,
    action_b: B,
    size: nat,
) -> bool {
    exists|text: Seq<char>|
        is_random_text(text, size) && #[trigger] both_ran_on_text(action_a, action_b, text)
}

/// Whether both candidates have run on the same `size` bytes.
pub open spec fn bytes_fed<X, Y, A: Fn(Vec<u8>) -> X, B: Fn(Vec<u8>) -> Y>(
    action_a: A,
    action_b: B,
    size: nat,
) -> bool {
    exists|bytes: Seq<u8>|
        bytes.len() == size && #[trigger] both_ran_on_bytes(action_a, action_b, bytes)
}

/// The trials of one step on texts: five times a random text of `size`
/// characters is drawn and handed to both candidates.
fn text_trials<X, Y, A: Fn(String) -> X, B: Fn(String) -> Y>(
    generator: &mut rand::rngs::ThreadRng,
    action_a: &A,
    action_b: &B,
    size: usize,
) -> (series: (Vec<u64>, Vec<u64>))
    requires
        takes_texts(*action_a, size as nat, size as nat),
        takes_texts(*action_b, size as nat, size as nat),
    ensures
        series.0@.len() == TRIALS,
        series.1@.len() == TRIALS,
        texts_fed(*action_a, *action_b, size as nat),
{
    let mut times_a: Vec<u64> = Vec::new();
    let mut times_b: Vec<u64> = Vec::new();
    let mut trial: usize = 0;
    while trial < TRIALS
        invariant
            trial <= TRIALS,
            times_a@.len() == trial,
            times_b@.len() == trial,
            takes_texts(*action_a, size as nat, size as nat),
            takes_texts(*action_b, size as nat, size as nat),
            trial > 0 ==> texts_fed(*action_a, *action_b, size as nat),
        decreases TRIALS - trial,
    {
        let text: String = gen_str(generator, size);
        let ghost drawn: Seq<char> = text@;
        let times: (u64, u64) = trial_on_text(action_a, action_b, text);
        assert(is_random_text(drawn, size as nat) && both_ran_on_text(
            *action_a,
            *action_b,
            drawn,
        ));
        times_a.push(times.0);
        times_b.push(times.1);
        trial = trial + 1;
    }
    (times_a, times_b)
}

/// The trials of one step on bytes: five times `size` random bytes are
/// drawn and handed to both candidates.
fn byte_trials<X, Y, A: Fn(Vec<u8>) -> X, B: Fn(Vec<u8>) -> Y>(
    generator: &mut rand::rngs::ThreadRng,
    action_a: &A,
    action_b: &B,
    size: usize,
) -> (series: (Vec<u64>, Vec<u64>))
    requires
        takes_bytes(*action_a, size as nat, size as nat),
        takes_bytes(*action_b, size as nat, size as nat),
    ensures
        series.0@.len() == TRIALS,
        series.1@.len() == TRIALS,
        bytes_fed(*action_a, *action_b, size as nat),
{
    let mut times_a: Vec<u64> = Vec::new();
    let mut times_b: Vec<u64> = Vec::new();
    let mut trial: usize = 0;
    while trial < TRIALS
        invariant
            trial <= TRIALS,
            times_a@.len() == trial,
            times_b@.len() == trial,
            takes_bytes(*action_a, size as nat, size as nat),
            takes_bytes(*action_b, size as nat, size as nat),
            trial > 0 ==> bytes_fed(*action_a, *action_b, size as nat),
        decreases TRIALS - trial,
    {
        let bytes: Vec<u8> = gen_bytes(generator, size);
        let ghost drawn: Seq<u8> = bytes@;
        let times: (u64, u64) = trial_on_bytes(action_a, action_b, bytes);
        assert(drawn.len() == size && both_ran_on_bytes(*action_a, *action_b, drawn));
        times_a.push(times.0);
        times_b.push(times.1);
        trial = trial + 1;
    }
    (times_a, times_b)
}

/// Compares two candidates that take a text, on random texts of ten sizes
/// from `min_size` on, a tenth of the range apart, with five trials at each
/// size. In each trial one text is drawn; the first candidate is timed on
/// it, then the second on a copy of it. A range narrower than ten is
/// refused.
pub fn compare_sweep_strings<X, Y, A: Fn(String) -> X, B: Fn(String) -> Y>(
    desc: &str,
    action_a: A,
    action_b: B,
    min_size: usize,
    max_size: usize,
) -> (outcome: Result<Sweep, InvalidSweepRangeError>)
    requires
        valid_range(min_size as nat, max_size as nat) ==> takes_texts(
            action_a,
            min_size as nat,
            max_size as nat,
        ) && takes_texts(action_b, min_size as nat, max_size as nat),
    ensures
        !valid_range(min_size as nat, max_size as nat) ==> outcome == Err::<
            Sweep,
            InvalidSweepRangeError,
        >((InvalidSweepRangeError { min_size, max_size })),
        valid_range(min_size as nat, max_size as nat) ==> outcome.is_ok() && outcome.unwrap().covers(
            desc@,
            "strings"@,
            min_size as nat,
            max_size as nat,
        ),
        valid_range(min_size as nat, max_size as nat) ==> forall|i: nat|
            i < STEPS ==> texts_fed(
                action_a,
                action_b,
                #[trigger] step_size(min_size as nat, max_size as nat, i),
            ),
{
    let sizes: Vec<usize> = match sweep_sizes(min_size, max_size) {
        Ok(sizes) => sizes,
        Err(refused) => {
            return Err(refused);
        },
    };
    let header: String = sweep_header("strings", min_size, max_size);
    let mut generator: rand::rngs::ThreadRng = rand::rng();
    let mut steps: Vec<SweepStep> = Vec::new();
    let mut step: usize = 0;
    while step < STEPS
        invariant
            valid_range(min_size as nat, max_size as nat),
            takes_texts(action_a, min_size as nat, max_size as nat),
            takes_texts(action_b, min_size as nat, max_size as nat),
            sizes@.len() == STEPS,
            forall|i: int|
                0 <= i < STEPS ==> #[trigger] sizes@[i] as nat == step_size(
                    min_size as nat,
                    max_size as nat,
                    i as nat,
                ),
            step <= STEPS,
            steps@.len() == step,
            forall|i: int|
                0 <= i < step ==> (#[trigger] steps@[i]).reports(
                    desc@,
                    step_size(min_size as nat, max_size as nat, i as nat),
                ),
            forall|i: nat|
                i < step ==> texts_fed(
                    action_a,
                    action_b,
                    #[trigger] step_size(min_size as nat, max_size as nat, i),
                ),
        decreases STEPS - step,
    {
        let size: usize = sizes[step];
        proof {
            lemma_step_in_range(min_size as nat, max_size as nat, step as nat);
        }
        let series: (Vec<u64>, Vec<u64>) = text_trials(&mut generator, &action_a, &action_b, size);
        let report: SweepStep = report_step(desc, size, series.0, series.1);
        steps.push(report);
        step = step + 1;
    }
    Ok(Sweep { header, steps })
}

/// Compares two candidates that take bytes, on random bytes of ten sizes
/// from `min_size` on, a tenth of the range apart, with five trials at each
/// size. In each trial the bytes are drawn once; the first candidate is
/// timed on them, then the second on a copy of them. A range narrower than
/// ten is refused.
pub fn compare_sweep_u8vecs<X, Y, A: Fn(Vec<u8>) -> X, B: Fn(Vec<u8>) -> Y>(
    desc: &str,
    action_a: A,
    action_b: B,
    min_size: usize,
    max_size: usize,
) -> (outcome: Result<Sweep, InvalidSweepRangeError>)
    requires
        valid_range(min_size as nat, max_size as nat) ==> takes_bytes(
            action_a,
            min_size as nat,
            max_size as nat,
        ) && takes_bytes(action_b, min_size as nat, max_size as nat),
    ensures
        !valid_range(min_size as nat, max_size as nat) ==> outcome == Err::<
            Sweep,
            InvalidSweepRangeError,
        >((InvalidSweepRangeError { min_size, max_size })),
        valid_range(min_size as nat, max_size as nat) ==> outcome.is_ok() && outcome.unwrap().covers(
            desc@,
            "[u8]"@,
            min_size as nat,
            max_size as nat,
        ),
        valid_range(min_size as nat, max_size as nat) ==> forall|i: nat|
            i < STEPS ==> bytes_fed(
                action_a,
                action_b,
                #[trigger] step_size(min_size as nat, max_size as nat, i),
            ),
{
    let sizes: Vec<usize> = match sweep_sizes(min_size, max_size) {
        Ok(sizes) => sizes,
        Err(refused) => {
            return Err(refused);
        },
    };
    let header: String = sweep_header("[u8]", min_size, max_size);
    let mut generator: rand::rngs::ThreadRng = rand::rng();
    let mut steps: Vec<SweepStep> = Vec::new();
    let mut step: usize = 0;
    while step < STEPS
        invariant
            valid_range(min_size as nat, max_size as nat),
            takes_bytes(action_a, min_size as nat, max_size as nat),
            takes_bytes(action_b, min_size as nat, max_size as nat),
            sizes@.len() == STEPS,
            forall|i: int|
                0 <= i < STEPS ==> #[trigger] sizes@[i] as nat == step_size(
                    min_size as nat,
                    max_size as nat,
                    i as nat,
                ),
            step <= STEPS,
            steps@.len() == step,
            forall|i: int|
                0 <= i < step ==> (#[trigger] steps@[i]).reports(
                    desc@,
                    step_size(min_size as nat, max_size as nat, i as nat),
                ),
            forall|i: nat|
                i < step ==> bytes_fed(
                    action_a,
                    action_b,
                    #[trigger] step_size(min_size as nat, max_size as nat, i),
                ),
        decreases STEPS - step,
    {
        let size: usize = sizes[step];
        proof {
            lemma_step_in_range(min_size as nat, max_size as nat, step as nat);
        }
        let series: (Vec<u64>, Vec<u64>) = byte_trials(&mut generator, &action_a, &action_b, size);
        let report: SweepStep = report_step(desc, size, series.0, series.1);
        steps.push(report);
        step = step + 1;
    }
    Ok(Sweep { header, steps })
}

} // verus!
