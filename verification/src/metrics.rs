//! Measuring how long operations take.

use std::time::Duration;
use vstd::prelude::*;
use crate::clock::as_nanos;
use crate::clock::elapsed;
use crate::clock::now;

verus! {

/// Number of nanoseconds in one millisecond.
pub const NANOS_PER_MILLI: u128 = 1_000_000;

/// A measurement that is to be recorded.
#[derive(Debug)]
pub enum MetricsTask {
    /// The time `delta` goes into the histogram `id`.
    Histogram { id: &'static str, delta: Duration },
}

/// An operation took longer than it may.
#[derive(Copy, Clone, Debug, PartialEq, Eq)]
pub struct TookTooLong {
    pub label: &'static str,
    /// The time that the operation took, in whole milliseconds.
    pub elapsed_millis: u128,
}

/// The warning that is due for an operation that took `elapsed` nanoseconds and may take
/// `max` nanoseconds: one that names the operation and the milliseconds that it took, if
/// it took longer.
pub open spec fn warning_for(label: &'static str, elapsed: u128, max: u128) -> Option<
    TookTooLong,
> {
    if elapsed > max {
        Some(TookTooLong { label, elapsed_millis: elapsed / NANOS_PER_MILLI })
    } else {
        None
    }
}

/// Returns the warning that is due for an operation that took `elapsed` nanoseconds and may
/// take `max` nanoseconds.
pub fn check_duration(label: &'static str, elapsed: u128, max: u128) -> (warning: Option<
    TookTooLong,
>)
    ensures
        warning == warning_for(label, elapsed, max),
{
    if elapsed > max {
        Some(TookTooLong { label, elapsed_millis: elapsed / NANOS_PER_MILLI })
    } else {
        None
    }
}

/// Carries out `f` and returns its result, together with a warning if it took longer than
/// `max` nanoseconds by the clock.
pub fn warn_if_takes_too_long<R, F: FnOnce() -> R>(label: &'static str, max: u128, f: F) -> (done:
    (R, Option<TookTooLong>))
    requires
        f.requires(()),
    ensures
        f.ensures((), done.0),
        done.1 matches Some(warning) ==> warning.label == label && warning.elapsed_millis * NANOS_PER_MILLI
            + NANOS_PER_MILLI > max,
{
    let before = now();
    let r = f();
    let took = elapsed(&before);
    let warning = check_duration(label, as_nanos(&took), max);
    (r, warning)
}

/// Carries out `f` and returns its result, together with the measurement of the time that
/// it took, if metrics are enabled.
pub fn measure_time<R, F: FnOnce() -> R>(id: &'static str, metrics_are_enabled: bool, f: F) -> (done:
    (R, Option<MetricsTask>))
    requires
        f.requires(()),
    ensures
        f.ensures((), done.0),
        done.1.is_some() == metrics_are_enabled,
        done.1 matches Some(MetricsTask::Histogram { id: recorded, .. }) ==> recorded == id,
{
    if !metrics_are_enabled {
        return (f(), None);
    }
    let start = now();
    let result = f();
    let task = record_duration_internal(id, elapsed(&start));
    (result, Some(task))
}

/// Returns the measurement that records `delta` in the histogram `id`, if metrics are
/// enabled.
pub fn record_duration(id: &'static str, metrics_are_enabled: bool, delta: Duration) -> (task:
    Option<MetricsTask>)
    ensures
        task.is_some() == metrics_are_enabled,
        task matches Some(t) ==> t == (MetricsTask::Histogram { id, delta }),
{
    if !metrics_are_enabled {
        return None;
    }
    Some(record_duration_internal(id, delta))
}

/// Returns the measurement that records `delta` in the histogram `id`.
pub fn record_duration_internal(id: &'static str, delta: Duration) -> (task: MetricsTask)
    ensures
        task == (MetricsTask::Histogram { id, delta }),
{
    MetricsTask::Histogram { id, delta }
}

} // verus!
