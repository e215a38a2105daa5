//! Timing of a single call with the monotonic clock.

use crate::report::{status_one, status_text, timing_text};
use vstd::prelude::*;

verus! {

/// A reading of the monotonic clock, `std::time::Instant`. Nothing is known
/// of what it holds.
#[verifier::external_type_specification]
#[verifier::external_body]
pub struct ExInstant(std::time::Instant);

/// `Instant::now` reads the monotonic clock. Nothing is claimed of the
/// reading.
pub assume_specification[ std::time::Instant::now ]() -> (start: std::time::Instant);

/// `Instant::elapsed` gives the time that has passed since the reading was
/// taken. Nothing is claimed of it: it depends on the clock.
pub assume_specification[ std::time::Instant::elapsed ](start: &std::time::Instant) -> (elapsed:
    std::time::Duration);

/// `Duration::as_nanos` gives the whole span in nanoseconds. Nothing is
/// claimed of the number: the span itself is unknown here.
pub assume_specification[ std::time::Duration::as_nanos ](span: &std::time::Duration) -> (nanos:
    u128);

/// A span of `nanos` nanoseconds as a duration: the same count, held at the
/// largest duration where it is beyond it.
pub open spec fn clamped_nanos(nanos: nat) -> nat {
    if nanos <= u64::MAX {
        nanos
    } else {
        u64::MAX as nat
    }
}

/// Turns a span in nanoseconds into a duration, saturating at the largest
/// one (some 584 years).
pub fn duration_from_nanos(nanos: u128) -> (duration: u64)
    ensures
        duration as nat == clamped_nanos(nanos as nat),
{
    if nanos > 0xffff_ffff_ffff_ffff {
        0xffff_ffff_ffff_ffff
    } else {
        nanos as u64
    }
}

/// The time since `start` in nanoseconds.
fn nanos_since(start: &std::time::Instant) -> (duration: u64) {
    let span: std::time::Duration = start.elapsed();
    duration_from_nanos(span.as_nanos())
}

/// Calls `action` once and returns the nanoseconds that the call took. The
/// value that the action returns is dropped.
pub fn measure_time<X, F: FnOnce() -> X>(action: F) -> (duration: u64)
    requires
        action.requires(()),
    ensures
        duration >= 0,
        exists|value: X| action.ensures((), value),
{
    let start: std::time::Instant = std::time::Instant::now();
    let _value: X = action();
    nanos_since(&start)
}

/// Calls `action` once and returns its value with the nanoseconds that the
/// call took.
pub fn measure_time_and_value<V, F: FnOnce() -> V>(action: F) -> (timed: (V, u64))
    requires
        action.requires(()),
    ensures
        action.ensures((), timed.0),
        timed.1 >= 0,
{
    let start: std::time::Instant = std::time::Instant::now();
    let value: V = action();
    let duration: u64 = nanos_since(&start);
    (value, duration)
}

/// Whether `line` is the status line that reports some duration under the
/// description `desc`.
pub open spec fn is_timing_line(line: Seq<char>, desc: Seq<char>) -> bool {
    exists|nsecs: u64| line == status_text(#[trigger] timing_text(desc, nsecs as nat))
}

/// Calls `action` once and returns the status line that reports, under
/// `desc`, how long the call took.
pub fn time<X, F: FnOnce() -> X>(desc: &str, action: F) -> (line: String)
    requires
        action.requires(()),
    ensures
        is_timing_line(line@, desc@),
        exists|value: X| action.ensures((), value),
{
    let duration: u64 = measure_time(action);
    status_one(desc, duration)
}

} // verus!
