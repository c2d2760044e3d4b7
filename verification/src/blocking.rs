//! Heuristic blocking-call detection.
//!
//! A future is watched poll by poll; if any single poll takes longer than
//! a threshold without yielding, the check warns with the tag
//! `blocking_suspected`. A long pure-CPU section looks the same as a
//! blocking call: the verdict is a signal to investigate.

use vstd::prelude::*;

use crate::check::{
    no_measures, no_tags, push_measure, push_tag, CheckOutcome, CheckView, Severity, Verdict,
};
use crate::span::Span;
use crate::text::{joined, span_debug, span_text};

verus! {

/// The longest span among `polls`, or the empty span where there are none.
pub open spec fn longest(polls: Seq<Span>) -> nat
    decreases polls.len(),
{
    if polls.len() == 0 {
        0
    } else {
        let rest = longest(polls.drop_last());
        if polls.last().total_nanos() > rest {
            polls.last().total_nanos()
        } else {
            rest
        }
    }
}

/// Keeps the longest single poll of a watched future.
pub struct BlockingMonitor {
    threshold: Span,
    max_observed: Span,
    polls: Ghost<Seq<Span>>,
}

impl BlockingMonitor {
    /// The durations of the polls recorded so far, in order.
    pub closed spec fn spec_polls(&self) -> Seq<Span> {
        self.polls@
    }

    /// The longest poll recorded so far.
    pub closed spec fn spec_max_observed(&self) -> Span {
        self.max_observed
    }

    /// The threshold the monitor was made with.
    pub closed spec fn spec_threshold(&self) -> Span {
        self.threshold
    }

    /// The kept maximum is the longest recorded poll.
    #[verifier::type_invariant]
    spec fn wf(&self) -> bool {
        self.max_observed.total_nanos() == longest(self.polls@)
    }

    /// A monitor with nothing recorded, for the threshold `threshold`.
    pub fn new(threshold: Span) -> (m: Self)
        ensures
            m.spec_threshold() == threshold,
            m.spec_polls().len() == 0,
            m.spec_max_observed().total_nanos() == 0,
    {
        BlockingMonitor { threshold, max_observed: Span::zero(), polls: Ghost(Seq::empty()) }
    }

    /// Records a poll that took `elapsed` before it returned.
    pub fn record_poll(&mut self, elapsed: Span)
        ensures
            final(self).spec_threshold() == old(self).spec_threshold(),
            final(self).spec_polls() == old(self).spec_polls().push(elapsed),
            final(self).spec_max_observed() == if elapsed.total_nanos() > old(
                self,
            ).spec_max_observed().total_nanos() {
                elapsed
            } else {
                old(self).spec_max_observed()
            },
    {
        proof {
            use_type_invariant(&*self);
        }
        let ghost before = self.polls@;
        let longest_so_far = if self.max_observed.at_least(&elapsed) {
            self.max_observed
        } else {
            elapsed
        };
        let ghost after = before.push(elapsed);
        assert(after.drop_last() =~= before);
        *self = BlockingMonitor {
            threshold: self.threshold,
            max_observed: longest_so_far,
            polls: Ghost(after),
        };
    }

    /// The longest poll recorded so far.
    pub fn max_observed_no_yield(&self) -> (r: Span)
        ensures
            r == self.spec_max_observed(),
            r.total_nanos() == longest(self.spec_polls()),
    {
        proof {
            use_type_invariant(self);
        }
        self.max_observed
    }

    /// The threshold the monitor was made with.
    pub fn threshold(&self) -> (r: Span)
        ensures
            r == self.spec_threshold(),
    {
        self.threshold
    }
}

/// The longest poll is at least as long as every recorded poll, and is one
/// of them unless none was recorded.
pub proof fn lemma_longest_bounds(polls: Seq<Span>)
    ensures
        forall|i: int| 0 <= i < polls.len() ==> (#[trigger] polls[i]).total_nanos() <= longest(polls),
        polls.len() == 0 ==> longest(polls) == 0,
        polls.len() > 0 ==> exists|i: int| 0 <= i < polls.len() && (#[trigger] polls[i]).total_nanos() == longest(polls),
    decreases polls.len(),
{
    if polls.len() > 0 {
        let rest = polls.drop_last();
        lemma_longest_bounds(rest);
        assert forall|i: int| 0 <= i < polls.len() implies (#[trigger] polls[i]).total_nanos() <= longest(polls) by {
            if i < rest.len() {
                assert(polls[i] == rest[i]);
            }
        }
        if polls.last().total_nanos() > longest(rest) {
            assert(polls[polls.len() - 1].total_nanos() == longest(polls));
        } else if rest.len() == 0 {
            assert(polls[polls.len() - 1].total_nanos() == longest(polls));
        } else {
            let k = choose|k: int| 0 <= k < rest.len() && (#[trigger] rest[k]).total_nanos() == longest(rest);
            assert(polls[k] == rest[k]);
        }
    }
}

/// The check for the future called `name`, watched with `threshold`,
/// that took `elapsed` in all and whose longest poll took `max_observed`.
pub open spec fn blocking_check(name: Seq<char>, threshold: Span, elapsed: Span, max_observed: Span) -> CheckView {
    let evidence = seq![
        ("elapsed_ms"@, elapsed.total_millis() as u128),
        ("max_no_yield_ms"@, max_observed.total_millis() as u128),
        ("threshold_ms"@, threshold.total_millis() as u128),
    ];
    if max_observed.total_nanos() > threshold.total_nanos() {
        CheckView {
            name: "async::"@ + name,
            verdict: Verdict::Warn,
            severity: Some(Severity::Warning),
            detail: Some(
                "longest non-yielding poll was "@ + span_text(max_observed) + ", exceeds threshold "@
                    + span_text(threshold),
            ),
            duration_ms: None,
            tags: seq!["async"@, "blocking_suspected"@],
            evidence,
        }
    } else {
        CheckView {
            name: "async::"@ + name,
            verdict: Verdict::Pass,
            severity: None,
            detail: None,
            duration_ms: Some(elapsed.total_millis() as u64),
            tags: seq!["async"@],
            evidence,
        }
    }
}

/// A watched future warns with `Warning`, tagged `blocking_suspected`,
/// exactly when its longest poll exceeded the threshold, and passes
/// otherwise.
pub proof fn lemma_blocking_check_contract(name: Seq<char>, threshold: Span, elapsed: Span, max_observed: Span)
    ensures
        blocking_check(name, threshold, elapsed, max_observed).follows_async_contract(),
        (blocking_check(name, threshold, elapsed, max_observed).verdict == Verdict::Warn)
            == (max_observed.total_nanos() > threshold.total_nanos()),
        (blocking_check(name, threshold, elapsed, max_observed).verdict == Verdict::Pass)
            == (max_observed.total_nanos() <= threshold.total_nanos()),
        max_observed.total_nanos() > threshold.total_nanos() ==> blocking_check(
            name,
            threshold,
            elapsed,
            max_observed,
        ).has_tag("blocking_suspected"@),
        blocking_check(name, threshold, elapsed, max_observed).has_measure(
            "max_no_yield_ms"@,
            max_observed.total_millis() as u128,
        ),
        blocking_check(name, threshold, elapsed, max_observed).has_measure(
            "threshold_ms"@,
            threshold.total_millis() as u128,
        ),
{
    let c = blocking_check(name, threshold, elapsed, max_observed);
    assert(c.tags[0] == "async"@);
    assert(c.evidence[1] == ("max_no_yield_ms"@, max_observed.total_millis() as u128));
    assert(c.evidence[2] == ("threshold_ms"@, threshold.total_millis() as u128));
    if c.verdict == Verdict::Warn {
        assert(c.tags[1] == "blocking_suspected"@);
    }
}

/// A watched future records the whole time it took as `elapsed_ms`, its
/// longest poll as `max_no_yield_ms` and the threshold as `threshold_ms`,
/// all in whole milliseconds; when it passes, its duration is the whole
/// time, and when it warns it has none.
pub proof fn lemma_blocking_check_records_times(name: Seq<char>, threshold: Span, elapsed: Span, max_observed: Span)
    ensures
        blocking_check(name, threshold, elapsed, max_observed).evidence == seq![
            ("elapsed_ms"@, (elapsed.total_nanos() / 1_000_000) as u128),
            ("max_no_yield_ms"@, (max_observed.total_nanos() / 1_000_000) as u128),
            ("threshold_ms"@, (threshold.total_nanos() / 1_000_000) as u128),
        ],
        max_observed.total_nanos() <= threshold.total_nanos() ==> blocking_check(
            name,
            threshold,
            elapsed,
            max_observed,
        ).duration_ms == Some((elapsed.total_nanos() / 1_000_000) as u64),
        max_observed.total_nanos() > threshold.total_nanos() ==> blocking_check(
            name,
            threshold,
            elapsed,
            max_observed,
        ).duration_ms is None,
{
}

/// The check for the future called `name`, watched with `threshold`, that
/// took `elapsed` in all and whose longest poll took `max_observed`.
pub fn blocking_outcome(name: &str, threshold: Span, elapsed: Span, max_observed: Span) -> (c: CheckOutcome)
    ensures
        c@ == blocking_check(name@, threshold, elapsed, max_observed),
        c@.follows_async_contract(),
        max_observed.total_nanos() <= threshold.total_nanos() ==> c@.duration_ms == Some(
            (elapsed.total_nanos() / 1_000_000) as u64,
        ),
{
    let full_name = joined("async::", name);
    let mut evidence = no_measures();
    push_measure(&mut evidence, "elapsed_ms", elapsed.as_millis());
    push_measure(&mut evidence, "max_no_yield_ms", max_observed.as_millis());
    push_measure(&mut evidence, "threshold_ms", threshold.as_millis());
    let mut tags = no_tags();
    push_tag(&mut tags, "async");
    let c = if !threshold.at_least(&max_observed) {
        push_tag(&mut tags, "blocking_suspected");
        let mut detail = joined("longest non-yielding poll was ", span_debug(&max_observed).as_str());
        detail.append(", exceeds threshold ");
        detail.append(span_debug(&threshold).as_str());
        CheckOutcome {
            name: full_name,
            verdict: Verdict::Warn,
            severity: Some(Severity::Warning),
            detail: Some(detail),
            duration_ms: None,
            tags,
            evidence,
        }
    } else {
        CheckOutcome {
            name: full_name,
            verdict: Verdict::Pass,
            severity: None,
            detail: None,
            duration_ms: Some(elapsed.as_millis() as u64),
            tags,
            evidence,
        }
    };
    assert(c@ =~= blocking_check(name@, threshold, elapsed, max_observed));
    proof {
        lemma_blocking_check_contract(name@, threshold, elapsed, max_observed);
        lemma_blocking_check_records_times(name@, threshold, elapsed, max_observed);
    }
    c
}

} // verus!
