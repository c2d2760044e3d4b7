use dev_async::check::{Severity, Verdict};
use dev_async::span::Span;
use dev_async::tasks::{group_outcome, TaskEnd, TrackedTaskGroup};

#[test]
fn empty_group_passes() {
    let c = group_outcome("empty", Span::from_millis(10), &vec![]);
    assert_eq!(c.verdict, Verdict::Pass);
    assert_eq!(c.detail.as_deref(), Some("spawned=0 completed=0 panicked=0 leaked=0"));
}

#[test]
fn all_complete_passes() {
    let ends = vec![TaskEnd::Completed; 3];
    let c = group_outcome("clean", Span::from_millis(100), &ends);
    assert_eq!(c.verdict, Verdict::Pass);
    assert!(c.has_tag("tasks"));
    assert!(!c.has_tag("regression"));
    assert_eq!(c.name, "async::tasks::clean");
}

#[test]
fn panic_yields_critical() {
    let c = group_outcome("panicky", Span::from_millis(50), &vec![TaskEnd::Panicked]);
    assert_eq!(c.verdict, Verdict::Fail);
    assert_eq!(c.severity, Some(Severity::Critical));
    assert!(c.has_tag("task_panicked"));
}

#[test]
fn leak_yields_error_with_task_leak_tag() {
    let c = group_outcome("leaky", Span::from_millis(20), &vec![TaskEnd::Leaked]);
    assert_eq!(c.verdict, Verdict::Fail);
    assert_eq!(c.severity, Some(Severity::Error));
    assert!(c.has_tag("task_leak"));
}

#[test]
fn panic_and_leak_are_both_tagged() {
    let ends = vec![
        TaskEnd::Completed,
        TaskEnd::Leaked,
        TaskEnd::Panicked,
        TaskEnd::Completed,
        TaskEnd::Completed,
        TaskEnd::Completed,
        TaskEnd::Completed,
        TaskEnd::Completed,
        TaskEnd::Completed,
        TaskEnd::Completed,
        TaskEnd::Completed,
        TaskEnd::Completed,
    ];
    let c = group_outcome("mixed", Span::from_millis(20), &ends);
    assert_eq!(c.severity, Some(Severity::Critical));
    assert!(c.has_tag("task_panicked"));
    assert!(c.has_tag("task_leak"));
    assert!(c.has_tag("regression"));
    assert_eq!(c.tags, vec!["async", "tasks", "task_panicked", "task_leak", "regression"]);
    assert_eq!(c.detail.as_deref(), Some("spawned=12 completed=10 panicked=1 leaked=1"));
    let values: Vec<u128> = c.evidence.iter().map(|m| m.value).collect();
    assert_eq!(values, vec![12, 10, 1, 1, 20]);
}

#[test]
fn spawned_count_tracks_calls() {
    let rt = tokio::runtime::Builder::new_current_thread().build().unwrap();
    let mut g = TrackedTaskGroup::new("count".to_string());
    for _ in 0..4 {
        g.track(rt.spawn(async {}));
    }
    assert_eq!(g.spawned_count(), 4);
    let (name, handles) = g.into_parts();
    assert_eq!(name, "count");
    assert_eq!(handles.len(), 4);
}
