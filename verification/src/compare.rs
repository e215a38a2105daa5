//! Comparison of two candidates: each is timed, once or repeatedly, and the
//! two durations, or their means, are reported on one line.

use crate::report::{status_two, status_two_text};
use crate::series::{avgu, series_mean};
use crate::timer::measure_time;
use vstd::prelude::*;
use vstd::string::*;

verus! {

/// How often `compare_several` times each candidate.
pub const REPETITIONS: usize = 10;

/// Whether a nullary action has run: some value meets what it promises.
pub open spec fn has_run<X, F: Fn() -> X>(action: F) -> bool {
    exists|value: X| action.ensures((), value)
}

/// Whether `line` is the status line that reports some two durations under
/// the description `desc`.
pub open spec fn is_pair_line(line: Seq<char>, desc: Seq<char>) -> bool {
    exists|aa: u64, bb: u64| line == #[trigger] status_two_text(desc, aa as nat, bb as nat)
}

/// The description under which means are reported.
pub open spec fn mean_label(desc: Seq<char>) -> Seq<char> {
    desc + " (avg)"@
}

/// The outcome of a repeated comparison: the trial series of the two
/// candidates, one duration for each call, and the line that reports their
/// means.
#[derive(Debug, Clone)]
pub struct Comparison {
    /// The durations of the first candidate's calls, in the order of the calls.
    pub times_a: Vec<u64>,
    /// The durations of the second candidate's calls, in the order of the calls.
    pub times_b: Vec<u64>,
    /// The status line with the means of the two series.
    pub line: String,
}

impl Comparison {
    /// Whether this is the outcome of timing each candidate `repetitions`
    /// times under the description `desc`: each series has one duration for
    /// each repetition, and the line reports the two means.
    pub open spec fn reports(&self, desc: Seq<char>, repetitions: nat) -> bool {
        &&& self.times_a@.len() == repetitions
        &&& self.times_b@.len() == repetitions
        &&& self.line@ == status_two_text(
            mean_label(desc),
            series_mean(self.times_a@),
            series_mean(self.times_b@),
        )
    }
}

/// Times one call of `action_a`, then one call of `action_b`, and returns
/// the two durations in that order.
pub fn measure_both<X, A: Fn() -> X, B: Fn() -> X>(action_a: &A, action_b: &B) -> (times: (
    u64,
    u64,
))
    requires
        action_a.requires(()),
        action_b.requires(()),
    ensures
        has_run(*action_a),
        has_run(*action_b),
{
    let first: u64 = measure_time(action_a);
    let second: u64 = measure_time(action_b);
    (first, second)
}

/// Times one call of each candidate and returns the status line that
/// reports the two durations under `desc`.
pub fn compare<X, A: Fn() -> X, B: Fn() -> X>(desc: &str, action_a: A, action_b: B) -> (line:
    String)
    requires
        action_a.requires(()),
        action_b.requires(()),
    ensures
        is_pair_line(line@, desc@),
        has_run(action_a),
        has_run(action_b),
{
    let times: (u64, u64) = measure_both(&action_a, &action_b);
    status_two(desc, times.0, times.1)
}

/// Reports the means of two trial series, neither of them empty, under
/// `desc` marked as an average.
pub fn report_means(desc: &str, times_a: Vec<u64>, times_b: Vec<u64>) -> (outcome: Comparison)
    requires
        times_a@.len() > 0,
        times_b@.len() > 0,
    ensures
        outcome.times_a@ == times_a@,
        outcome.times_b@ == times_b@,
        outcome.line@ == status_two_text(
            mean_label(desc@),
            series_mean(times_a@),
            series_mean(times_b@),
        ),
{
    let label: String = String::from_str(desc).concat(" (avg)");
    let mean_a: u64 = avgu(times_a.as_slice());
    let mean_b: u64 = avgu(times_b.as_slice());
    let line: String = status_two(label.as_str(), mean_a, mean_b);
    Comparison { times_a, times_b, line }
}

/// Times each candidate `repetitions` times, in each repetition the first
/// candidate before the second, and reports the means of the two series.
pub fn compare_repeatedly<X, A: Fn() -> X, B: Fn() -> X>(
    desc: &str,
    action_a: A,
    action_b: B,
    repetitions: usize,
) -> (outcome: Comparison)
    requires
        repetitions >= 1,
        action_a.requires(()),
        action_b.requires(()),
    ensures
        outcome.reports(desc@, repetitions as nat),
        has_run(action_a),
        has_run(action_b),
{
    let mut times_a: Vec<u64> = Vec::new();
    let mut times_b: Vec<u64> = Vec::new();
    let mut done: usize = 0;
    while done < repetitions
        invariant
            done <= repetitions,
            times_a@.len() == done,
            times_b@.len() == done,
            action_a.requires(()),
            action_b.requires(()),
            done > 0 ==> has_run(action_a) && has_run(action_b),
        decreases repetitions - done,
    {
        let times: (u64, u64) = measure_both(&action_a, &action_b);
        times_a.push(times.0);
        times_b.push(times.1);
        done = done + 1;
    }
    report_means(desc, times_a, times_b)
}

/// Times each candidate ten times and reports the means of the two series.
pub fn compare_several<X, A: Fn() -> X, B: Fn() -> X>(desc: &str, action_a: A, action_b: B) -> (outcome:
    Comparison)
    requires
        action_a.requires(()),
        action_b.requires(()),
    ensures
        outcome.reports(desc@, REPETITIONS as nat),
        has_run(action_a),
        has_run(action_b),
{
    compare_repeatedly(desc, action_a, action_b, REPETITIONS)
}

} // verus!
