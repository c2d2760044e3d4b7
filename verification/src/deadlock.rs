//! Timeout-based deadlock detection.
//!
//! Acquiring a lock under a hard deadline either succeeds, which passes,
//! or times out, which fails with severity `Error` and the tag
//! `deadlock_suspected`. A timeout cannot tell a true deadlock from long
//! contention: the verdict is a signal, not a proof.

use vstd::prelude::*;

use crate::check::{
    no_measures, no_tags, push_measure, push_tag, CheckOutcome, CheckView, Severity, Verdict,
};
use crate::span::Span;
use crate::text::{joined, span_debug, span_text};

verus! {

/// Which acquisition was attempted.
#[derive(Clone, Copy, Debug, PartialEq, Eq, Structural)]
pub enum LockKind {
    /// A mutex lock.
    Mutex,
    /// A read lock of a read-write lock.
    Read,
    /// A write lock of a read-write lock.
    Write,
}

/// What follows the lock's name in the check's name.
pub open spec fn kind_suffix(kind: LockKind) -> Seq<char> {
    match kind {
        LockKind::Mutex => ""@,
        LockKind::Read => "::read"@,
        LockKind::Write => "::write"@,
    }
}

/// How the failure detail names the lock.
pub open spec fn kind_phrase(kind: LockKind) -> Seq<char> {
    match kind {
        LockKind::Mutex => "could not acquire lock within "@,
        LockKind::Read => "could not acquire read lock within "@,
        LockKind::Write => "could not acquire write lock within "@,
    }
}

/// The check for acquiring the lock `name` of kind `kind` under `timeout`:
/// `acquired` holds the time it took where it was acquired.
pub open spec fn lock_check(name: Seq<char>, kind: LockKind, timeout: Span, acquired: Option<Span>) -> CheckView {
    let full_name = "async::lock::"@ + name + kind_suffix(kind);
    match acquired {
        Some(elapsed) => CheckView {
            name: full_name,
            verdict: Verdict::Pass,
            severity: None,
            detail: None,
            duration_ms: Some(elapsed.total_millis() as u64),
            tags: seq!["async"@, "lock"@],
            evidence: seq![
                ("elapsed_ms"@, elapsed.total_millis() as u128),
                ("timeout_ms"@, timeout.total_millis() as u128),
            ],
        },
        None => CheckView {
            name: full_name,
            verdict: Verdict::Fail,
            severity: Some(Severity::Error),
            detail: Some(kind_phrase(kind) + span_text(timeout)),
            duration_ms: None,
            tags: seq!["async"@, "lock"@, "deadlock_suspected"@, "regression"@],
            evidence: seq![("timeout_ms"@, timeout.total_millis() as u128)],
        },
    }
}

/// An acquisition in time passes; one that timed out fails with `Error`,
/// tagged `deadlock_suspected` and `regression`.
pub proof fn lemma_lock_check_contract(name: Seq<char>, kind: LockKind, timeout: Span, acquired: Option<Span>)
    ensures
        lock_check(name, kind, timeout, acquired).follows_async_contract(),
        lock_check(name, kind, timeout, acquired).has_tag("lock"@),
        lock_check(name, kind, timeout, acquired).has_measure(
            "timeout_ms"@,
            timeout.total_millis() as u128,
        ),
        (lock_check(name, kind, timeout, acquired).verdict == Verdict::Pass) == (acquired is Some),
        acquired is None ==> lock_check(name, kind, timeout, acquired).severity == Some(
            Severity::Error,
        ) && lock_check(name, kind, timeout, acquired).has_tag("deadlock_suspected"@),
{
    let c = lock_check(name, kind, timeout, acquired);
    assert(c.tags[0] == "async"@);
    assert(c.tags[1] == "lock"@);
    if acquired is Some {
        assert(c.evidence[1] == ("timeout_ms"@, timeout.total_millis() as u128));
    } else {
        assert(c.evidence[0] == ("timeout_ms"@, timeout.total_millis() as u128));
        assert(c.tags[2] == "deadlock_suspected"@);
        assert(c.tags[3] == "regression"@);
    }
}

/// An acquisition that succeeded records the time it took, in whole
/// milliseconds, both as the check's duration and as `elapsed_ms`, and the
/// timeout as `timeout_ms`; the timeout does not change the duration.
pub proof fn lemma_acquired_lock_records_its_time(name: Seq<char>, kind: LockKind, timeout: Span, elapsed: Span)
    ensures
        lock_check(name, kind, timeout, Some(elapsed)).duration_ms == Some(
            (elapsed.total_nanos() / 1_000_000) as u64,
        ),
        lock_check(name, kind, timeout, Some(elapsed)).has_measure(
            "elapsed_ms"@,
            (elapsed.total_nanos() / 1_000_000) as u128,
        ),
        lock_check(name, kind, timeout, Some(elapsed)).evidence.len() == 2,
        lock_check(name, kind, timeout, Some(elapsed)).evidence[0] == (
            "elapsed_ms"@,
            (elapsed.total_nanos() / 1_000_000) as u128,
        ),
        forall|other: Span|
            #![trigger lock_check(name, kind, other, Some(elapsed))]
            lock_check(name, kind, other, Some(elapsed)).duration_ms == lock_check(
                name,
                kind,
                timeout,
                Some(elapsed),
            ).duration_ms,
{
    let c = lock_check(name, kind, timeout, Some(elapsed));
    assert(c.evidence[0] == ("elapsed_ms"@, (elapsed.total_nanos() / 1_000_000) as u128));
}

/// The check for acquiring the lock `name` of kind `kind` under `timeout`:
/// `Ok` with a passing check where it was acquired after `acquired`'s
/// time, `Err` with a failing one where the timeout expired.
pub fn lock_outcome(name: &str, kind: LockKind, timeout: Span, acquired: Option<Span>) -> (r: Result<CheckOutcome, CheckOutcome>)
    ensures
        r is Ok <==> acquired is Some,
        match r {
            Ok(c) => c@ == lock_check(name@, kind, timeout, acquired),
            Err(c) => c@ == lock_check(name@, kind, timeout, acquired),
        },
        match r {
            Ok(c) => c@.follows_async_contract(),
            Err(c) => c@.follows_async_contract(),
        },
        r matches Ok(c) ==> acquired matches Some(e) && c@.duration_ms == Some(
            (e.total_nanos() / 1_000_000) as u64,
        ) && c@.has_measure("elapsed_ms"@, (e.total_nanos() / 1_000_000) as u128),
{
    let mut full_name = joined("async::lock::", name);
    match kind {
        LockKind::Mutex => {},
        LockKind::Read => full_name.append("::read"),
        LockKind::Write => full_name.append("::write"),
    }
    proof {
        if kind == LockKind::Mutex {
            reveal_strlit("");
            assert(full_name@ =~= "async::lock::"@ + name@ + kind_suffix(kind));
        }
    }
    proof {
        lemma_lock_check_contract(name@, kind, timeout, acquired);
        if let Some(e) = acquired {
            lemma_acquired_lock_records_its_time(name@, kind, timeout, e);
        }
    }
    let mut tags = no_tags();
    push_tag(&mut tags, "async");
    push_tag(&mut tags, "lock");
    let mut evidence = no_measures();
    match acquired {
        Some(elapsed) => {
            push_measure(&mut evidence, "elapsed_ms", elapsed.as_millis());
            push_measure(&mut evidence, "timeout_ms", timeout.as_millis());
            let c = CheckOutcome {
                name: full_name,
                verdict: Verdict::Pass,
                severity: None,
                detail: None,
                duration_ms: Some(elapsed.as_millis() as u64),
                tags,
                evidence,
            };
            assert(c@ =~= lock_check(name@, kind, timeout, acquired));
            Ok(c)
        },
        None => {
            push_tag(&mut tags, "deadlock_suspected");
            push_tag(&mut tags, "regression");
            push_measure(&mut evidence, "timeout_ms", timeout.as_millis());
            let phrase = match kind {
                LockKind::Mutex => "could not acquire lock within ",
                LockKind::Read => "could not acquire read lock within ",
                LockKind::Write => "could not acquire write lock within ",
            };
            let text = span_debug(&timeout);
            let c = CheckOutcome {
                name: full_name,
                verdict: Verdict::Fail,
                severity: Some(Severity::Error),
                detail: Some(joined(phrase, text.as_str())),
                duration_ms: None,
                tags,
                evidence,
            };
            assert(c@ =~= lock_check(name@, kind, timeout, acquired));
            Err(c)
        },
    }
}

} // verus!
