use dev_async::check::{CheckOutcome, Severity, Verdict};
use dev_async::shutdown::{RunPhase, ShutdownAction, ShutdownComponent, ShutdownEvent, ShutdownProbe};
use dev_async::span::Span;

fn measure(c: &CheckOutcome, label: &str) -> Option<u128> {
    c.evidence.iter().find(|m| m.label == label).map(|m| m.value)
}

/// Drives a run where each component's drain check is a list of answers
/// and every call and every sleep advances the clock by `tick`.
fn drive(probe: ShutdownProbe<Vec<bool>>, tick: Span) -> Vec<CheckOutcome> {
    let (mut run, drains) = probe.into_run();
    let mut calls = vec![0usize; drains.len()];
    let mut clock = Span::zero();
    let mut action = run.step(ShutdownEvent::Start { now: clock });
    loop {
        match action {
            ShutdownAction::CheckDrain { component } => {
                let answers = &drains[component];
                let drained = answers[calls[component].min(answers.len() - 1)];
                calls[component] += 1;
                clock = Span::from_millis(clock.as_millis() as u64 + tick.as_millis() as u64);
                action = run.step(ShutdownEvent::DrainChecked { drained, now: clock });
            }
            ShutdownAction::Sleep { interval } => {
                clock = Span::from_millis(clock.as_millis() as u64 + interval.as_millis() as u64);
                action = run.step(ShutdownEvent::Woke { now: clock });
            }
            ShutdownAction::Finished => break,
        }
    }
    assert_eq!(run.phase(), RunPhase::Finished);
    run.into_checks()
}

#[test]
fn already_drained_component_passes() {
    let comp = ShutdownComponent::new("done".to_string(), vec![true]);
    let probe = ShutdownProbe::new("sys".to_string())
        .deadline(Span::from_millis(100))
        .poll_interval(Span::from_millis(5))
        .with_component(comp);
    let results = drive(probe, Span::from_millis(1));
    assert_eq!(results.len(), 2);
    assert_eq!(results[0].verdict, Verdict::Pass);
    assert_eq!(results[1].verdict, Verdict::Pass);
    assert!(results[1].has_tag("aggregate"));
    assert_eq!(results[0].name, "async::shutdown::sys::done");
    assert_eq!(results[1].name, "async::shutdown::sys");
    assert_eq!(results[0].detail.as_deref(), Some("drained in 1ms"));
    assert_eq!(results[1].detail.as_deref(), Some("all components drained"));
}

#[test]
fn never_draining_component_fails() {
    let comp = ShutdownComponent::new("hung".to_string(), vec![false]);
    let probe = ShutdownProbe::new("sys".to_string())
        .deadline(Span::from_millis(50))
        .poll_interval(Span::from_millis(5))
        .with_component(comp);
    let results = drive(probe, Span::from_millis(1));
    assert_eq!(results[0].verdict, Verdict::Fail);
    assert!(results[0].has_tag("not_drained"));
    assert_eq!(results[0].severity, Some(Severity::Error));
    assert_eq!(results[0].detail.as_deref(), Some("did not drain within 50ms"));
    assert_eq!(results[1].verdict, Verdict::Fail);
    assert!(results[1].has_tag("regression"));
    assert_eq!(results[1].detail.as_deref(), Some("one or more components did not drain"));
}

#[test]
fn component_drains_eventually() {
    let comp = ShutdownComponent::new("delayed".to_string(), vec![false, false, false, true]);
    let probe = ShutdownProbe::new("sys".to_string())
        .deadline(Span::from_millis(200))
        .poll_interval(Span::from_millis(5))
        .with_component(comp);
    let results = drive(probe, Span::from_millis(1));
    assert_eq!(results[0].verdict, Verdict::Pass);
    assert_eq!(results[0].duration_ms, Some(19));
    assert_eq!(measure(&results[0], "elapsed_ms"), Some(19));
}

#[test]
fn aggregate_includes_component_evidence_count() {
    let probe = ShutdownProbe::new("multi".to_string())
        .deadline(Span::from_millis(50))
        .poll_interval(Span::from_millis(5))
        .with_component(ShutdownComponent::new("a".to_string(), vec![true]))
        .with_component(ShutdownComponent::new("b".to_string(), vec![true]));
    let results = drive(probe, Span::from_millis(1));
    assert_eq!(results.len(), 3);
    let agg = results.last().unwrap();
    assert_eq!(measure(agg, "components"), Some(2));
    assert_eq!(measure(agg, "deadline_ms"), Some(50));
}

#[test]
fn probe_defaults() {
    let probe: ShutdownProbe<Vec<bool>> = ShutdownProbe::new("d".to_string());
    let (run, drains) = probe.into_run();
    assert!(drains.is_empty());
    assert_eq!(run.phase(), RunPhase::NotStarted);
    let mut run = run;
    let action = run.step(ShutdownEvent::Start { now: Span::zero() });
    assert_eq!(action, ShutdownAction::Finished);
    let checks = run.into_checks();
    assert_eq!(checks.len(), 1);
    assert_eq!(measure(&checks[0], "deadline_ms"), Some(5000));
    assert_eq!(measure(&checks[0], "components"), Some(0));
    assert_eq!(checks[0].verdict, Verdict::Pass);
}

#[test]
fn late_components_give_up_at_once() {
    let probe = ShutdownProbe::new("s".to_string())
        .deadline(Span::from_millis(10))
        .poll_interval(Span::from_millis(4))
        .with_component(ShutdownComponent::new("first".to_string(), vec![false]))
        .with_component(ShutdownComponent::new("second".to_string(), vec![true]));
    let results = drive(probe, Span::from_millis(1));
    assert_eq!(results.len(), 3);
    assert_eq!(results[0].verdict, Verdict::Fail);
    // The second component starts past the deadline and is never polled.
    assert_eq!(results[1].verdict, Verdict::Fail);
    assert_eq!(measure(&results[1], "elapsed_ms"), Some(0));
    assert_eq!(results[2].verdict, Verdict::Fail);
}

#[test]
fn sleep_uses_poll_interval() {
    let probe = ShutdownProbe::new("s".to_string())
        .poll_interval(Span::from_millis(7))
        .with_component(ShutdownComponent::new("c".to_string(), vec![false, true]));
    let (mut run, _drains) = probe.into_run();
    assert_eq!(
        run.step(ShutdownEvent::Start { now: Span::zero() }),
        ShutdownAction::CheckDrain { component: 0 }
    );
    assert!(run.accepts(&ShutdownEvent::DrainChecked { drained: false, now: Span::zero() }));
    assert!(!run.accepts(&ShutdownEvent::Woke { now: Span::zero() }));
    let a = run.step(ShutdownEvent::DrainChecked { drained: false, now: Span::from_millis(1) });
    assert_eq!(a, ShutdownAction::Sleep { interval: Span::from_millis(7) });
    assert_eq!(run.phase(), RunPhase::Sleeping);
}

#[test]
fn drain_reported_after_deadline_fails() {
    let probe = ShutdownProbe::new("sys".to_string())
        .deadline(Span::from_millis(50))
        .poll_interval(Span::from_millis(5))
        .with_component(ShutdownComponent::new("slow".to_string(), vec![true]));
    // The drain check takes 200ms before it answers `true`.
    let results = drive(probe, Span::from_millis(200));
    assert_eq!(results.len(), 2);
    assert_eq!(results[0].verdict, Verdict::Fail);
    assert!(results[0].has_tag("not_drained"));
    assert_eq!(results[1].verdict, Verdict::Fail);
}
