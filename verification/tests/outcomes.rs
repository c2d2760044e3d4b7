use dev_async::blocking::{blocking_outcome, BlockingMonitor};
use dev_async::cancellation_safety::{cancel_outcome, CancelObservation};
use dev_async::check::{CheckOutcome, Severity, Verdict};
use dev_async::deadlock::{lock_outcome, LockKind};
use dev_async::span::Span;
use dev_async::timeout::{join_outcomes, task_outcome, timeout_outcome, TaskOutcome};

fn measure(c: &CheckOutcome, label: &str) -> Option<u128> {
    c.evidence.iter().find(|m| m.label == label).map(|m| m.value)
}

fn labels(c: &CheckOutcome) -> Vec<&str> {
    c.evidence.iter().map(|m| m.label.as_str()).collect()
}

#[test]
fn span_from_millis_splits_seconds() {
    let s = Span::from_millis(1500);
    assert_eq!(s.as_secs(), 1);
    assert_eq!(s.subsec_nanos(), 500_000_000);
    assert_eq!(s.as_millis(), 1500);
}

#[test]
fn span_saturating_sub_borrows_and_floors() {
    let a = Span::from_parts(3, 100);
    let b = Span::from_parts(1, 200);
    let d = a.saturating_sub(&b);
    assert_eq!(d.as_secs(), 1);
    assert_eq!(d.subsec_nanos(), 999_999_900);
    let z = b.saturating_sub(&a);
    assert_eq!(z.as_secs(), 0);
    assert_eq!(z.subsec_nanos(), 0);
    assert!(a.at_least(&b));
    assert!(!b.at_least(&a));
    assert!(a.at_least(&a));
}

#[test]
fn timeout_pass_fast_future() {
    let c = timeout_outcome("fast", Span::from_millis(500), Some(Span::from_millis(3)));
    assert_eq!(c.verdict, Verdict::Pass);
    assert!(c.has_tag("async"));
    let l = labels(&c);
    assert!(l.contains(&"elapsed_ms"));
    assert!(l.contains(&"timeout_ms"));
    assert_eq!(c.name, "async::fast");
    assert_eq!(c.severity, None);
    assert_eq!(c.duration_ms, Some(3));
    assert_eq!(measure(&c, "elapsed_ms"), Some(3));
    assert_eq!(measure(&c, "timeout_ms"), Some(500));
}

#[test]
fn timeout_fail_slow_future() {
    let c = timeout_outcome("slow", Span::from_millis(10), None);
    assert_eq!(c.verdict, Verdict::Fail);
    assert!(c.has_tag("timeout"));
    assert!(c.has_tag("regression"));
    assert!(c.has_tag("async"));
    assert_eq!(c.severity, Some(Severity::Error));
    assert_eq!(c.detail.as_deref(), Some("future did not complete within 10ms"));
    assert_eq!(labels(&c), vec!["timeout_ms"]);
}

#[test]
fn check_evidence_includes_timeout() {
    let c = timeout_outcome("x", Span::from_millis(50), Some(Span::zero()));
    assert_eq!(measure(&c, "timeout_ms"), Some(50));
}

#[test]
fn timeout_detail_uses_duration_text() {
    let c = timeout_outcome("op", Span::from_secs(2), None);
    assert_eq!(c.detail.as_deref(), Some("future did not complete within 2s"));
    let c = timeout_outcome("op", Span::from_millis(1500), None);
    assert_eq!(c.detail.as_deref(), Some("future did not complete within 1.5s"));
}

#[test]
fn join_all_basic() {
    let outcomes = vec![
        TaskOutcome::Completed { elapsed: Span::from_millis(1) },
        TaskOutcome::Completed { elapsed: Span::from_millis(2) },
    ];
    let results = join_outcomes("g", Span::from_secs(1), &outcomes);
    assert_eq!(results.len(), 2);
    assert!(results.iter().all(|r| r.verdict == Verdict::Pass));
    assert!(results.iter().all(|r| r.has_tag("async")));
    assert_eq!(results[0].name, "async::g::task0");
    assert_eq!(results[1].name, "async::g::task1");
    assert_eq!(measure(&results[1], "task_index"), Some(1));
    assert_eq!(measure(&results[1], "timeout_ms"), Some(1000));
    assert_eq!(measure(&results[1], "elapsed_ms"), Some(2));
}

#[test]
fn join_all_panic_is_critical() {
    let outcomes = vec![TaskOutcome::Panicked { message: "task 7 panicked with message \"oops\"".to_string() }];
    let results = join_outcomes("g", Span::from_secs(1), &outcomes);
    assert_eq!(results.len(), 1);
    assert_eq!(results[0].verdict, Verdict::Fail);
    assert_eq!(results[0].severity, Some(Severity::Critical));
    assert!(results[0].has_tag("task_panicked"));
    assert!(results[0].has_tag("regression"));
    assert_eq!(
        results[0].detail.as_deref(),
        Some("task panicked or was cancelled: task 7 panicked with message \"oops\"")
    );
}

#[test]
fn join_all_timeout_is_error() {
    let results = join_outcomes("g", Span::from_millis(20), &vec![TaskOutcome::TimedOut]);
    assert_eq!(results[0].verdict, Verdict::Fail);
    assert_eq!(results[0].severity, Some(Severity::Error));
    assert!(results[0].has_tag("timeout"));
    assert_eq!(results[0].detail.as_deref(), Some("task did not complete within 20ms"));
    assert_eq!(labels(&results[0]), vec!["task_index", "timeout_ms"]);
}

#[test]
fn task_index_counts_past_nine() {
    let c = task_outcome("pool", 12, Span::from_secs(1), &TaskOutcome::TimedOut);
    assert_eq!(c.name, "async::pool::task12");
    assert_eq!(measure(&c, "task_index"), Some(12));
}

#[test]
fn mutex_lock_acquires_under_timeout() {
    let check = lock_outcome("a", LockKind::Mutex, Span::from_millis(50), Some(Span::from_millis(1))).unwrap();
    assert_eq!(check.verdict, Verdict::Pass);
    assert!(check.has_tag("lock"));
    assert_eq!(check.name, "async::lock::a");
}

#[test]
fn mutex_lock_times_out_when_held() {
    let err = lock_outcome("a", LockKind::Mutex, Span::from_millis(20), None).unwrap_err();
    assert_eq!(err.verdict, Verdict::Fail);
    assert!(err.has_tag("deadlock_suspected"));
    assert!(err.has_tag("regression"));
    assert_eq!(err.detail.as_deref(), Some("could not acquire lock within 20ms"));
}

#[test]
fn rwlock_read_under_timeout() {
    let check = lock_outcome("a", LockKind::Read, Span::from_millis(50), Some(Span::zero())).unwrap();
    assert_eq!(check.verdict, Verdict::Pass);
    assert_eq!(check.name, "async::lock::a::read");
}

#[test]
fn rwlock_write_times_out_when_held() {
    let err = lock_outcome("a", LockKind::Write, Span::from_millis(20), None).unwrap_err();
    assert_eq!(err.verdict, Verdict::Fail);
    assert_eq!(err.name, "async::lock::a::write");
    assert_eq!(err.detail.as_deref(), Some("could not acquire write lock within 20ms"));
    assert_eq!(err.severity, Some(Severity::Error));
}

#[test]
fn future_that_completes_yields_skip() {
    let c = cancel_outcome("fast", Span::from_secs(1), Span::from_millis(1), CancelObservation::CompletedEarly);
    assert_eq!(c.verdict, Verdict::Skip);
    assert!(c.has_tag("cancellation_check"));
    assert_eq!(c.severity, None);
}

#[test]
fn cancellation_with_safe_state_passes() {
    let c = cancel_outcome(
        "buffered_write",
        Span::from_millis(20),
        Span::from_millis(21),
        CancelObservation::Cancelled { state_safe: true },
    );
    assert_eq!(c.verdict, Verdict::Pass);
    assert!(c.has_tag("cancellation_safe"));
    assert_eq!(c.duration_ms, Some(21));
}

#[test]
fn cancellation_with_unsafe_state_fails() {
    let c = cancel_outcome(
        "early_commit",
        Span::from_millis(20),
        Span::from_millis(21),
        CancelObservation::Cancelled { state_safe: false },
    );
    assert_eq!(c.verdict, Verdict::Fail);
    assert_eq!(c.severity, Some(Severity::Critical));
    assert!(c.has_tag("cancellation_unsafe"));
    assert!(c.has_tag("regression"));
}

#[test]
fn evidence_includes_cancel_at_and_elapsed() {
    let c = cancel_outcome(
        "x",
        Span::from_millis(50),
        Span::from_millis(51),
        CancelObservation::Cancelled { state_safe: true },
    );
    let l = labels(&c);
    assert!(l.contains(&"cancel_at_ms"));
    assert!(l.contains(&"elapsed_ms"));
    assert_eq!(measure(&c, "cancel_at_ms"), Some(50));
}

#[test]
fn monitor_keeps_longest_poll() {
    let mut m = BlockingMonitor::new(Span::from_millis(5));
    assert_eq!(m.max_observed_no_yield().as_millis(), 0);
    m.record_poll(Span::from_millis(3));
    m.record_poll(Span::from_millis(9));
    m.record_poll(Span::from_millis(4));
    assert_eq!(m.max_observed_no_yield().as_millis(), 9);
    assert_eq!(m.threshold().as_millis(), 5);
}

#[test]
fn fast_future_passes() {
    let c = blocking_outcome("op", Span::from_millis(50), Span::from_millis(1), Span::from_millis(1));
    assert_eq!(c.verdict, Verdict::Pass);
    assert_eq!(c.severity, None);
}

#[test]
fn long_blocking_section_warns() {
    let c = blocking_outcome("op", Span::from_millis(5), Span::from_millis(20), Span::from_millis(20));
    assert_eq!(c.verdict, Verdict::Warn);
    assert!(c.has_tag("blocking_suspected"));
    assert_eq!(c.severity, Some(Severity::Warning));
    assert_eq!(
        c.detail.as_deref(),
        Some("longest non-yielding poll was 20ms, exceeds threshold 5ms")
    );
}

#[test]
fn poll_equal_to_threshold_passes() {
    let c = blocking_outcome("op", Span::from_millis(5), Span::from_millis(9), Span::from_millis(5));
    assert_eq!(c.verdict, Verdict::Pass);
}

#[test]
fn evidence_includes_max_no_yield() {
    let c = blocking_outcome("op", Span::from_millis(50), Span::zero(), Span::zero());
    let l = labels(&c);
    assert!(l.contains(&"max_no_yield_ms"));
    assert!(l.contains(&"threshold_ms"));
}
