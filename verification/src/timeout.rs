//! Verdicts for a future run under a hard timeout, and for a set of
//! spawned tasks joined under one.
//!
//! A future that completes in time passes; one that does not fails with
//! severity `Error`; a task that panics or is cancelled fails with severity
//! `Critical`. Every check is tagged `async` and records the timeout, and
//! on the passing path the elapsed time.

use vstd::prelude::*;

use crate::check::{
    no_measures, no_tags, push_measure, push_tag, CheckOutcome, CheckView, Severity, Verdict,
};
use crate::span::Span;
use crate::text::{decimal, decimal_text, joined, span_debug, span_text};

verus! {

/// The check for the future called `name`, run under `timeout`:
/// `completed` holds the elapsed time where it completed, and is `None`
/// where the timeout expired first.
pub open spec fn timeout_check(name: Seq<char>, timeout: Span, completed: Option<Span>) -> CheckView {
    match completed {
        Some(elapsed) => CheckView {
            name: "async::"@ + name,
            verdict: Verdict::Pass,
            severity: None,
            detail: None,
            duration_ms: Some(elapsed.total_millis() as u64),
            tags: seq!["async"@],
            evidence: seq![
                ("elapsed_ms"@, elapsed.total_millis() as u128),
                ("timeout_ms"@, timeout.total_millis() as u128),
            ],
        },
        None => CheckView {
            name: "async::"@ + name,
            verdict: Verdict::Fail,
            severity: Some(Severity::Error),
            detail: Some("future did not complete within "@ + span_text(timeout)),
            duration_ms: None,
            tags: seq!["async"@, "timeout"@, "regression"@],
            evidence: seq![("timeout_ms"@, timeout.total_millis() as u128)],
        },
    }
}

/// The check for a future called `name` that was run under `timeout`;
/// `completed` is the elapsed time if it completed in time.
pub fn timeout_outcome(name: &str, timeout: Span, completed: Option<Span>) -> (c: CheckOutcome)
    ensures
        c@ == timeout_check(name@, timeout, completed),
        c@.follows_async_contract(),
        c@.has_measure("timeout_ms"@, timeout.total_millis() as u128),
        c@.verdict == Verdict::Pass <==> completed is Some,
        c@.verdict == Verdict::Fail <==> completed is None,
        completed matches Some(e) ==> c@.duration_ms == Some((e.total_nanos() / 1_000_000) as u64)
            && c@.has_measure("elapsed_ms"@, (e.total_nanos() / 1_000_000) as u128),
{
    let full_name = joined("async::", name);
    let mut tags = no_tags();
    push_tag(&mut tags, "async");
    let mut evidence = no_measures();
    let c = match completed {
        Some(elapsed) => {
            push_measure(&mut evidence, "elapsed_ms", elapsed.as_millis());
            push_measure(&mut evidence, "timeout_ms", timeout.as_millis());
            CheckOutcome {
                name: full_name,
                verdict: Verdict::Pass,
                severity: None,
                detail: None,
                duration_ms: Some(elapsed.as_millis() as u64),
                tags,
                evidence,
            }
        },
        None => {
            push_tag(&mut tags, "timeout");
            push_tag(&mut tags, "regression");
            push_measure(&mut evidence, "timeout_ms", timeout.as_millis());
            let text = span_debug(&timeout);
            CheckOutcome {
                name: full_name,
                verdict: Verdict::Fail,
                severity: Some(Severity::Error),
                detail: Some(joined("future did not complete within ", text.as_str())),
                duration_ms: None,
                tags,
                evidence,
            }
        },
    };
    assert(c@ =~= timeout_check(name@, timeout, completed));
    proof {
        lemma_timeout_check_contract(name@, timeout, completed);
        if let Some(e) = completed {
            lemma_completed_future_records_its_time(name@, timeout, e);
        }
    }
    c
}

/// A future run under a timeout carries the `async` tag and the timeout as evidence, `Pass` exactly when it completed
/// (with its elapsed time as evidence), and otherwise `Fail (Error)` tagged
/// `timeout` and `regression`.
pub proof fn lemma_timeout_check_contract(name: Seq<char>, timeout: Span, completed: Option<Span>)
    ensures
        timeout_check(name, timeout, completed).follows_async_contract(),
        timeout_check(name, timeout, completed).has_measure(
            "timeout_ms"@,
            timeout.total_millis() as u128,
        ),
        completed matches Some(e) ==> timeout_check(name, timeout, completed).verdict
            == Verdict::Pass && timeout_check(name, timeout, completed).has_measure(
            "elapsed_ms"@,
            e.total_millis() as u128,
        ),
        completed is None ==> timeout_check(name, timeout, completed).verdict == Verdict::Fail
            && timeout_check(name, timeout, completed).severity == Some(Severity::Error)
            && timeout_check(name, timeout, completed).has_tag("timeout"@),
{
    let c = timeout_check(name, timeout, completed);
    assert(c.tags[0] == "async"@);
    match completed {
        Some(e) => {
            assert(c.evidence[0] == ("elapsed_ms"@, e.total_millis() as u128));
            assert(c.evidence[1] == ("timeout_ms"@, timeout.total_millis() as u128));
        },
        None => {
            assert(c.evidence[0] == ("timeout_ms"@, timeout.total_millis() as u128));
            assert(c.tags[1] == "timeout"@);
            assert(c.tags[2] == "regression"@);
        },
    }
}

/// A future that completed records the time it took, in whole
/// milliseconds, both as the check's duration and as `elapsed_ms`; the
/// timeout plays no part in either.
pub proof fn lemma_completed_future_records_its_time(name: Seq<char>, timeout: Span, elapsed: Span)
    ensures
        timeout_check(name, timeout, Some(elapsed)).duration_ms == Some(
            (elapsed.total_nanos() / 1_000_000) as u64,
        ),
        timeout_check(name, timeout, Some(elapsed)).has_measure(
            "elapsed_ms"@,
            (elapsed.total_nanos() / 1_000_000) as u128,
        ),
        forall|other: Span|
            #![trigger timeout_check(name, other, Some(elapsed))]
            timeout_check(name, other, Some(elapsed)).duration_ms == timeout_check(
                name,
                timeout,
                Some(elapsed),
            ).duration_ms,
{
    let c = timeout_check(name, timeout, Some(elapsed));
    assert(c.evidence[0] == ("elapsed_ms"@, (elapsed.total_nanos() / 1_000_000) as u128));
}

/// How a joined task ended.
#[derive(Debug)]
pub enum TaskOutcome {
    /// It completed after `elapsed`.
    Completed { elapsed: Span },
    /// It panicked or was cancelled; `message` says which.
    Panicked { message: String },
    /// It did not complete within the timeout.
    TimedOut,
}

/// A task outcome as mathematical values.
pub enum TaskOutcomeView {
    Completed { elapsed: Span },
    Panicked { message: Seq<char> },
    TimedOut,
}

impl View for TaskOutcome {
    type V = TaskOutcomeView;

    open spec fn view(&self) -> TaskOutcomeView {
        match self {
            TaskOutcome::Completed { elapsed } => TaskOutcomeView::Completed { elapsed: *elapsed },
            TaskOutcome::Panicked { message } => TaskOutcomeView::Panicked { message: message@ },
            TaskOutcome::TimedOut => TaskOutcomeView::TimedOut,
        }
    }
}

/// The name of the check for task `index` of the group `name`.
pub open spec fn task_check_name(name: Seq<char>, index: nat) -> Seq<char> {
    "async::"@ + name + "::task"@ + decimal_text(index)
}

/// A task that completed records the time it took, in whole milliseconds,
/// both as the check's duration and as `elapsed_ms`; neither the timeout
/// nor its index plays a part.
pub proof fn lemma_completed_task_records_its_time(name: Seq<char>, index: nat, timeout: Span, elapsed: Span)
    ensures
        task_check(name, index, timeout, TaskOutcomeView::Completed { elapsed }).duration_ms
            == Some((elapsed.total_nanos() / 1_000_000) as u64),
        task_check(name, index, timeout, TaskOutcomeView::Completed { elapsed }).has_measure(
            "elapsed_ms"@,
            (elapsed.total_nanos() / 1_000_000) as u128,
        ),
        forall|other: Span, j: nat|
            #![trigger task_check(name, j, other, TaskOutcomeView::Completed { elapsed })]
            task_check(name, j, other, TaskOutcomeView::Completed { elapsed }).duration_ms
                == task_check(name, index, timeout, TaskOutcomeView::Completed { elapsed }).duration_ms,
{
    let c = task_check(name, index, timeout, TaskOutcomeView::Completed { elapsed });
    assert(c.evidence[2] == ("elapsed_ms"@, (elapsed.total_nanos() / 1_000_000) as u128));
}

/// The check for task `index` of the group `name`, joined under `timeout`.
pub open spec fn task_check(name: Seq<char>, index: nat, timeout: Span, outcome: TaskOutcomeView) -> CheckView {
    let base = seq![("task_index"@, index as u128), ("timeout_ms"@, timeout.total_millis() as u128)];
    match outcome {
        TaskOutcomeView::Completed { elapsed } => CheckView {
            name: task_check_name(name, index),
            verdict: Verdict::Pass,
            severity: None,
            detail: None,
            duration_ms: Some(elapsed.total_millis() as u64),
            tags: seq!["async"@],
            evidence: base.push(("elapsed_ms"@, elapsed.total_millis() as u128)),
        },
        TaskOutcomeView::Panicked { message } => CheckView {
            name: task_check_name(name, index),
            verdict: Verdict::Fail,
            severity: Some(Severity::Critical),
            detail: Some("task panicked or was cancelled: "@ + message),
            duration_ms: None,
            tags: seq!["async"@, "task_panicked"@, "regression"@],
            evidence: base,
        },
        TaskOutcomeView::TimedOut => CheckView {
            name: task_check_name(name, index),
            verdict: Verdict::Fail,
            severity: Some(Severity::Error),
            detail: Some("task did not complete within "@ + span_text(timeout)),
            duration_ms: None,
            tags: seq!["async"@, "timeout"@, "regression"@],
            evidence: base,
        },
    }
}

/// A joined task reports `Pass` when it completed, `Fail (Critical)` tagged
/// `task_panicked` when it panicked, and `Fail (Error)` tagged `timeout`
/// when it did not complete in time; always tagged `async`, always with
/// its index and the timeout as evidence.
pub proof fn lemma_task_check_contract(name: Seq<char>, index: nat, timeout: Span, outcome: TaskOutcomeView)
    ensures
        task_check(name, index, timeout, outcome).follows_async_contract(),
        task_check(name, index, timeout, outcome).has_measure("task_index"@, index as u128),
        task_check(name, index, timeout, outcome).has_measure(
            "timeout_ms"@,
            timeout.total_millis() as u128,
        ),
        (task_check(name, index, timeout, outcome).verdict == Verdict::Pass) == (outcome is Completed),
        outcome is Panicked ==> task_check(name, index, timeout, outcome).severity == Some(
            Severity::Critical,
        ) && task_check(name, index, timeout, outcome).has_tag("task_panicked"@),
        outcome is TimedOut ==> task_check(name, index, timeout, outcome).severity == Some(
            Severity::Error,
        ) && task_check(name, index, timeout, outcome).has_tag("timeout"@),
{
    let c = task_check(name, index, timeout, outcome);
    assert(c.tags[0] == "async"@);
    assert(c.evidence[0] == ("task_index"@, index as u128));
    assert(c.evidence[1] == ("timeout_ms"@, timeout.total_millis() as u128));
    if !(outcome is Completed) {
        assert(c.tags[1] == "task_panicked"@ || c.tags[1] == "timeout"@);
        assert(c.tags[2] == "regression"@);
    }
}

/// The check for task `index` of the group `name`, joined under `timeout`.
pub fn task_outcome(name: &str, index: usize, timeout: Span, outcome: &TaskOutcome) -> (c: CheckOutcome)
    ensures
        c@ == task_check(name@, index as nat, timeout, outcome@),
        c@.follows_async_contract(),
        outcome@ matches TaskOutcomeView::Completed { elapsed } ==> c@.duration_ms == Some(
            (elapsed.total_nanos() / 1_000_000) as u64,
        ) && c@.has_measure("elapsed_ms"@, (elapsed.total_nanos() / 1_000_000) as u128),
{
    let mut full_name = joined("async::", name);
    full_name.append("::task");
    let number = decimal(index);
    full_name.append(number.as_str());
    let mut tags = no_tags();
    push_tag(&mut tags, "async");
    let mut evidence = no_measures();
    push_measure(&mut evidence, "task_index", index as u128);
    push_measure(&mut evidence, "timeout_ms", timeout.as_millis());
    let c = match outcome {
        TaskOutcome::Completed { elapsed } => {
            push_measure(&mut evidence, "elapsed_ms", elapsed.as_millis());
            CheckOutcome {
                name: full_name,
                verdict: Verdict::Pass,
                severity: None,
                detail: None,
                duration_ms: Some(elapsed.as_millis() as u64),
                tags,
                evidence,
            }
        },
        TaskOutcome::Panicked { message } => {
            push_tag(&mut tags, "task_panicked");
            push_tag(&mut tags, "regression");
            CheckOutcome {
                name: full_name,
                verdict: Verdict::Fail,
                severity: Some(Severity::Critical),
                detail: Some(joined("task panicked or was cancelled: ", message.as_str())),
                duration_ms: None,
                tags,
                evidence,
            }
        },
        TaskOutcome::TimedOut => {
            push_tag(&mut tags, "timeout");
            push_tag(&mut tags, "regression");
            let text = span_debug(&timeout);
            CheckOutcome {
                name: full_name,
                verdict: Verdict::Fail,
                severity: Some(Severity::Error),
                detail: Some(joined("task did not complete within ", text.as_str())),
                duration_ms: None,
                tags,
                evidence,
            }
        },
    };
    assert(c@ =~= task_check(name@, index as nat, timeout, outcome@));
    proof {
        lemma_task_check_contract(name@, index as nat, timeout, outcome@);
        if let TaskOutcomeView::Completed { elapsed } = outcome@ {
            lemma_completed_task_records_its_time(name@, index as nat, timeout, elapsed);
        }
    }
    c
}

/// One check per joined task of the group `name`, in the order of
/// `outcomes`.
pub fn join_outcomes(name: &str, timeout: Span, outcomes: &Vec<TaskOutcome>) -> (checks: Vec<CheckOutcome>)
    ensures
        checks.len() == outcomes.len(),
        forall|i: int|
            0 <= i < outcomes.len() ==> (#[trigger] checks@[i])@ == task_check(
                name@,
                i as nat,
                timeout,
                outcomes@[i]@,
            ),
        forall|i: int| 0 <= i < checks.len() ==> (#[trigger] checks@[i])@.follows_async_contract(),
{
    let mut checks: Vec<CheckOutcome> = Vec::new();
    let mut i: usize = 0;
    while i < outcomes.len()
        invariant
            i <= outcomes.len(),
            checks.len() == i,
            forall|j: int|
                0 <= j < i ==> (#[trigger] checks@[j])@ == task_check(
                    name@,
                    j as nat,
                    timeout,
                    outcomes@[j]@,
                ),
            forall|j: int| 0 <= j < i ==> (#[trigger] checks@[j])@.follows_async_contract(),
        decreases outcomes.len() - i,
    {
        let c = task_outcome(name, i, timeout, &outcomes[i]);
        checks.push(c);
        i += 1;
    }
    checks
}

} // verus!
