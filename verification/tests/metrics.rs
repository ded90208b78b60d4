use clip_engine::metrics::check_duration;
use clip_engine::metrics::measure_time;
use clip_engine::metrics::record_duration;
use clip_engine::metrics::record_duration_internal;
use clip_engine::metrics::warn_if_takes_too_long;
use clip_engine::metrics::MetricsTask;
use clip_engine::metrics::TookTooLong;
use std::time::Duration;

#[test]
fn duration_is_checked_against_the_limit() {
    assert_eq!(check_duration("op", 5, 5), None);
    assert_eq!(check_duration("op", 0, 0), None);
    assert_eq!(check_duration("op", 6, 5), Some(TookTooLong { label: "op", elapsed_millis: 0 }));
    assert_eq!(
        check_duration("op", 2_999_999, 1_000_000),
        Some(TookTooLong { label: "op", elapsed_millis: 2 })
    );
    assert_eq!(
        check_duration("op", u128::MAX, 0),
        Some(TookTooLong { label: "op", elapsed_millis: u128::MAX / 1_000_000 })
    );
}

#[test]
fn warn_if_takes_too_long_returns_the_result_of_the_operation() {
    let (result, warning) = warn_if_takes_too_long("quick", u128::MAX, || 6 * 7);
    assert_eq!(result, 42);
    assert_eq!(warning, None);
    let (result, warning) = warn_if_takes_too_long("slow", 0, || {
        let start = std::time::Instant::now();
        while start.elapsed() < Duration::from_millis(3) {}
        "done"
    });
    assert_eq!(result, "done");
    let warning = warning.unwrap();
    assert_eq!(warning.label, "slow");
    assert!(warning.elapsed_millis >= 3);
}

#[test]
fn measure_time_measures_only_when_enabled() {
    let (result, task) = measure_time("id", false, || 5);
    assert_eq!(result, 5);
    assert!(task.is_none());
    let (result, task) = measure_time("id", true, || {
        let start = std::time::Instant::now();
        while start.elapsed() < Duration::from_millis(2) {}
        7
    });
    assert_eq!(result, 7);
    match task {
        Some(MetricsTask::Histogram { id, delta }) => {
            assert_eq!(id, "id");
            assert!(delta >= Duration::from_millis(2));
        }
        None => panic!("expected a measurement"),
    }
}

#[test]
fn record_duration_records_only_when_enabled() {
    assert!(record_duration("id", false, Duration::from_millis(5)).is_none());
    match record_duration("id", true, Duration::from_millis(5)) {
        Some(MetricsTask::Histogram { id, delta }) => {
            assert_eq!(id, "id");
            assert_eq!(delta, Duration::from_millis(5));
        }
        None => panic!("expected a measurement"),
    }
    match record_duration_internal("other", Duration::from_secs(1)) {
        MetricsTask::Histogram { id, delta } => {
            assert_eq!(id, "other");
            assert_eq!(delta, Duration::from_secs(1));
        }
    }
}
