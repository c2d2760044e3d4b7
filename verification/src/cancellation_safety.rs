//! Cancellation-safety verification.
//!
//! A future is cancellation-safe if dropping it mid-poll leaves observable
//! state as it would be had it never been polled. The check drives the
//! future to a deadline, drops it, and asks the caller's state predicate
//! whether the state is still consistent. The verdict is a strong signal,
//! not a proof.

use vstd::prelude::*;

use crate::check::{
    no_measures, no_tags, push_measure, push_tag, CheckOutcome, CheckView, Severity, Verdict,
};
use crate::span::Span;
use crate::text::{joined, owned};

verus! {

/// What the check observed.
#[derive(Clone, Copy, Debug, PartialEq, Eq, Structural)]
pub enum CancelObservation {
    /// The future completed before the deadline, so it was never
    /// cancelled and the state predicate was not asked.
    CompletedEarly,
    /// The future was dropped at the deadline; the state predicate then
    /// returned `state_safe`.
    Cancelled { state_safe: bool },
}

/// The check for the future called `name`, cancelled at `cancel_at`, after
/// `elapsed` of driving it.
pub open spec fn cancel_check(name: Seq<char>, cancel_at: Span, elapsed: Span, observed: CancelObservation) -> CheckView {
    let evidence = seq![
        ("cancel_at_ms"@, cancel_at.total_millis() as u128),
        ("elapsed_ms"@, elapsed.total_millis() as u128),
    ];
    match observed {
        CancelObservation::CompletedEarly => CheckView {
            name: "async::"@ + name,
            verdict: Verdict::Skip,
            severity: None,
            detail: Some(
                "future completed before cancellation; check did not exercise drop path"@,
            ),
            duration_ms: None,
            tags: seq!["async"@, "cancellation_check"@],
            evidence,
        },
        CancelObservation::Cancelled { state_safe: true } => CheckView {
            name: "async::"@ + name,
            verdict: Verdict::Pass,
            severity: None,
            detail: Some("future cancelled at deadline; state predicate held"@),
            duration_ms: Some(elapsed.total_millis() as u64),
            tags: seq!["async"@, "cancellation_safe"@],
            evidence,
        },
        CancelObservation::Cancelled { state_safe: false } => CheckView {
            name: "async::"@ + name,
            verdict: Verdict::Fail,
            severity: Some(Severity::Critical),
            detail: Some("state predicate failed after future was cancelled mid-poll"@),
            duration_ms: None,
            tags: seq!["async"@, "cancellation_unsafe"@, "regression"@],
            evidence,
        },
    }
}

/// A future that completes early is skipped; a cancelled one passes
/// exactly when the state predicate held and otherwise fails with
/// `Critical`, tagged `cancellation_unsafe`.
pub proof fn lemma_cancel_check_contract(name: Seq<char>, cancel_at: Span, elapsed: Span, observed: CancelObservation)
    ensures
        cancel_check(name, cancel_at, elapsed, observed).follows_async_contract(),
        cancel_check(name, cancel_at, elapsed, observed).has_measure(
            "cancel_at_ms"@,
            cancel_at.total_millis() as u128,
        ),
        (cancel_check(name, cancel_at, elapsed, observed).verdict == Verdict::Skip) == (observed
            is CompletedEarly),
        (cancel_check(name, cancel_at, elapsed, observed).verdict == Verdict::Pass) == (observed
            == (CancelObservation::Cancelled { state_safe: true })),
        observed == (CancelObservation::Cancelled { state_safe: false }) ==> cancel_check(
            name,
            cancel_at,
            elapsed,
            observed,
        ).severity == Some(Severity::Critical) && cancel_check(
            name,
            cancel_at,
            elapsed,
            observed,
        ).has_tag("cancellation_unsafe"@),
{
    let c = cancel_check(name, cancel_at, elapsed, observed);
    assert(c.tags[0] == "async"@);
    assert(c.evidence[0] == ("cancel_at_ms"@, cancel_at.total_millis() as u128));
    if c.verdict == Verdict::Fail {
        assert(c.tags[1] == "cancellation_unsafe"@);
        assert(c.tags[2] == "regression"@);
    }
}

/// A cancelled future whose state held records the time it was driven, in
/// whole milliseconds, as its duration and as `elapsed_ms`; every check
/// records `cancel_at` as `cancel_at_ms` and the elapsed time as
/// `elapsed_ms`.
pub proof fn lemma_cancel_check_records_times(name: Seq<char>, cancel_at: Span, elapsed: Span, observed: CancelObservation)
    ensures
        cancel_check(name, cancel_at, elapsed, observed).has_measure(
            "elapsed_ms"@,
            (elapsed.total_nanos() / 1_000_000) as u128,
        ),
        cancel_check(name, cancel_at, elapsed, observed).has_measure(
            "cancel_at_ms"@,
            (cancel_at.total_nanos() / 1_000_000) as u128,
        ),
        observed == (CancelObservation::Cancelled { state_safe: true }) ==> cancel_check(
            name,
            cancel_at,
            elapsed,
            observed,
        ).duration_ms == Some((elapsed.total_nanos() / 1_000_000) as u64),
        observed != (CancelObservation::Cancelled { state_safe: true }) ==> cancel_check(
            name,
            cancel_at,
            elapsed,
            observed,
        ).duration_ms is None,
{
    let c = cancel_check(name, cancel_at, elapsed, observed);
    assert(c.evidence[0] == ("cancel_at_ms"@, (cancel_at.total_nanos() / 1_000_000) as u128));
    assert(c.evidence[1] == ("elapsed_ms"@, (elapsed.total_nanos() / 1_000_000) as u128));
}

/// The check for the future called `name`, cancelled at `cancel_at`, after
/// `elapsed` of driving it, given what was observed.
pub fn cancel_outcome(name: &str, cancel_at: Span, elapsed: Span, observed: CancelObservation) -> (c: CheckOutcome)
    ensures
        c@ == cancel_check(name@, cancel_at, elapsed, observed),
        c@.follows_async_contract(),
        observed == (CancelObservation::Cancelled { state_safe: true }) ==> c@.duration_ms == Some(
            (elapsed.total_nanos() / 1_000_000) as u64,
        ),
{
    let full_name = joined("async::", name);
    let mut evidence = no_measures();
    push_measure(&mut evidence, "cancel_at_ms", cancel_at.as_millis());
    push_measure(&mut evidence, "elapsed_ms", elapsed.as_millis());
    let mut tags = no_tags();
    push_tag(&mut tags, "async");
    let c = match observed {
        CancelObservation::CompletedEarly => {
            push_tag(&mut tags, "cancellation_check");
            CheckOutcome {
                name: full_name,
                verdict: Verdict::Skip,
                severity: None,
                detail: Some(
                    owned(
                        "future completed before cancellation; check did not exercise drop path",
                    ),
                ),
                duration_ms: None,
                tags,
                evidence,
            }
        },
        CancelObservation::Cancelled { state_safe: true } => {
            push_tag(&mut tags, "cancellation_safe");
            CheckOutcome {
                name: full_name,
                verdict: Verdict::Pass,
                severity: None,
                detail: Some(owned("future cancelled at deadline; state predicate held")),
                duration_ms: Some(elapsed.as_millis() as u64),
                tags,
                evidence,
            }
        },
        CancelObservation::Cancelled { state_safe: false } => {
            push_tag(&mut tags, "cancellation_unsafe");
            push_tag(&mut tags, "regression");
            CheckOutcome {
                name: full_name,
                verdict: Verdict::Fail,
                severity: Some(Severity::Critical),
                detail: Some(owned("state predicate failed after future was cancelled mid-poll")),
                duration_ms: None,
                tags,
                evidence,
            }
        },
    };
    assert(c@ =~= cancel_check(name@, cancel_at, elapsed, observed));
    proof {
        lemma_cancel_check_contract(name@, cancel_at, elapsed, observed);
        lemma_cancel_check_records_times(name@, cancel_at, elapsed, observed);
    }
    c
}

} // verus!
