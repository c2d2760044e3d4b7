//! Task tracking for leak detection.
//!
//! A [`TrackedTaskGroup`] keeps the handle of every task spawned through
//! it. When the group is finalized, each task is joined with a grace
//! period and the group reports one check: `Pass` when every task
//! completed, `Fail (Critical)` tagged `task_panicked` when one panicked,
//! and otherwise `Fail (Error)` when one was still running; any task still
//! running adds the tag `task_leak`.

use vstd::prelude::*;

use crate::check::{
    no_measures, no_tags, push_measure, push_tag, CheckOutcome, CheckView, Severity, Verdict,
};
use crate::span::Span;
use crate::text::{decimal, decimal_text, joined};

verus! {

/// The handle of a spawned tokio task; opaque here.
#[verifier::external_type_specification]
#[verifier::external_body]
#[verifier::reject_recursive_types(T)]
pub struct ExJoinHandle<T>(tokio::task::JoinHandle<T>);

/// Why joining a tokio task failed; opaque here. Verus needs it declared
/// because `JoinHandle`'s `Future` impl names it as part of its output.
#[verifier::external_type_specification]
#[verifier::external_body]
pub struct ExJoinError(tokio::task::JoinError);

/// A named group of spawned tasks whose handles are kept until the group
/// is finalized.
pub struct TrackedTaskGroup {
    name: String,
    handles: Vec<tokio::task::JoinHandle<()>>,
}

impl TrackedTaskGroup {
    /// The group's name.
    pub closed spec fn spec_name(&self) -> Seq<char> {
        self.name@
    }

    /// The handles of the tasks spawned through the group, in spawn order.
    pub closed spec fn spec_handles(&self) -> Seq<tokio::task::JoinHandle<()>> {
        self.handles@
    }

    /// How many tasks have been spawned through the group.
    pub open spec fn spec_spawned(&self) -> nat {
        self.spec_handles().len()
    }

    /// An empty group called `name`.
    pub fn new(name: String) -> (g: Self)
        ensures
            g.spec_name() == name@,
            g.spec_handles().len() == 0,
    {
        TrackedTaskGroup { name, handles: Vec::new() }
    }

    /// Keeps `handle`, the handle of a task just spawned for the group.
    pub fn track(&mut self, handle: tokio::task::JoinHandle<()>)
        ensures
            final(self).spec_name() == old(self).spec_name(),
            final(self).spec_handles() == old(self).spec_handles().push(handle),
    {
        self.handles.push(handle);
    }

    /// How many tasks have been spawned through the group so far.
    pub fn spawned_count(&self) -> (n: usize)
        ensures
            n == self.spec_spawned(),
    {
        self.handles.len()
    }

    /// The group's name.
    pub fn name(&self) -> (r: &str)
        ensures
            r@ == self.spec_name(),
    {
        self.name.as_str()
    }

    /// The group's name and the handles of its tasks, in spawn order.
    pub fn into_parts(self) -> (r: (String, Vec<tokio::task::JoinHandle<()>>))
        ensures
            r.0@ == self.spec_name(),
            r.1@ == self.spec_handles(),
    {
        (self.name, self.handles)
    }
}

/// How a task of a group ended when it was joined with the grace period.
#[derive(Clone, Copy, Debug, PartialEq, Eq, Structural)]
pub enum TaskEnd {
    /// It completed.
    Completed,
    /// It panicked or was cancelled.
    Panicked,
    /// It was still running when the grace period ran out.
    Leaked,
}

/// How many of `ends` are `kind`.
pub open spec fn count_ends(ends: Seq<TaskEnd>, kind: TaskEnd) -> nat
    decreases ends.len(),
{
    if ends.len() == 0 {
        0
    } else {
        count_ends(ends.drop_last(), kind) + if ends.last() == kind {
            1nat
        } else {
            0nat
        }
    }
}

/// The detail line of a finalized group.
pub open spec fn tally_text(spawned: nat, completed: nat, panicked: nat, leaked: nat) -> Seq<char> {
    "spawned="@ + decimal_text(spawned) + " completed="@ + decimal_text(completed)
        + " panicked="@ + decimal_text(panicked) + " leaked="@ + decimal_text(leaked)
}

/// The check of the group `name` whose tasks ended as `ends`, joined with
/// the grace period `grace`.
pub open spec fn group_check(name: Seq<char>, grace: Span, ends: Seq<TaskEnd>) -> CheckView {
    let completed = count_ends(ends, TaskEnd::Completed);
    let panicked = count_ends(ends, TaskEnd::Panicked);
    let leaked = count_ends(ends, TaskEnd::Leaked);
    let evidence = seq![
        ("spawned"@, ends.len() as u128),
        ("completed"@, completed as u128),
        ("panicked"@, panicked as u128),
        ("leaked"@, leaked as u128),
        ("grace_ms"@, grace.total_millis() as u128),
    ];
    let detail = Some(tally_text(ends.len(), completed, panicked, leaked));
    let name = "async::tasks::"@ + name;
    if panicked > 0 {
        CheckView {
            name,
            verdict: Verdict::Fail,
            severity: Some(Severity::Critical),
            detail,
            duration_ms: None,
            tags: if leaked > 0 {
                seq!["async"@, "tasks"@, "task_panicked"@, "task_leak"@, "regression"@]
            } else {
                seq!["async"@, "tasks"@, "task_panicked"@, "regression"@]
            },
            evidence,
        }
    } else if leaked > 0 {
        CheckView {
            name,
            verdict: Verdict::Fail,
            severity: Some(Severity::Error),
            detail,
            duration_ms: None,
            tags: seq!["async"@, "tasks"@, "task_leak"@, "regression"@],
            evidence,
        }
    } else {
        CheckView {
            name,
            verdict: Verdict::Pass,
            severity: None,
            detail,
            duration_ms: None,
            tags: seq!["async"@, "tasks"@],
            evidence,
        }
    }
}

/// Each of the three counts of a prefix grows by at most one per task.
proof fn lemma_counts_step(ends: Seq<TaskEnd>, i: int)
    requires
        0 <= i < ends.len(),
    ensures
        ends.take(i + 1).drop_last() == ends.take(i),
        ends.take(i + 1).last() == ends[i],
{
    assert(ends.take(i + 1).drop_last() =~= ends.take(i));
}

/// The three counts add up to the number of tasks.
pub proof fn lemma_counts_add_up(ends: Seq<TaskEnd>)
    ensures
        count_ends(ends, TaskEnd::Completed) + count_ends(ends, TaskEnd::Panicked) + count_ends(
            ends,
            TaskEnd::Leaked,
        ) == ends.len(),
    decreases ends.len(),
{
    if ends.len() > 0 {
        lemma_counts_add_up(ends.drop_last());
    }
}

/// A finalized group passes exactly when every task completed; it fails
/// with `Critical` and `task_panicked` when any task panicked, and
/// otherwise with `Error`; it is tagged `task_leak` whenever a task was
/// still running. Its counts add up to the number of tasks spawned.
pub proof fn lemma_group_check_contract(name: Seq<char>, grace: Span, ends: Seq<TaskEnd>)
    ensures
        group_check(name, grace, ends).follows_async_contract(),
        group_check(name, grace, ends).has_tag("tasks"@),
        (group_check(name, grace, ends).verdict == Verdict::Pass) == (count_ends(
            ends,
            TaskEnd::Completed,
        ) == ends.len()),
        count_ends(ends, TaskEnd::Panicked) > 0 ==> group_check(name, grace, ends).severity
            == Some(Severity::Critical) && group_check(name, grace, ends).has_tag(
            "task_panicked"@,
        ),
        count_ends(ends, TaskEnd::Panicked) == 0 && count_ends(ends, TaskEnd::Leaked) > 0
            ==> group_check(name, grace, ends).severity == Some(Severity::Error),
        count_ends(ends, TaskEnd::Leaked) > 0 ==> group_check(name, grace, ends).has_tag(
            "task_leak"@,
        ),
        group_check(name, grace, ends).has_measure("spawned"@, ends.len() as u128),
{
    let c = group_check(name, grace, ends);
    lemma_counts_add_up(ends);
    assert(c.tags[0] == "async"@);
    assert(c.tags[1] == "tasks"@);
    assert(c.evidence[0] == ("spawned"@, ends.len() as u128));
    if c.verdict != Verdict::Pass {
        assert(c.tags[2] == "task_panicked"@ || c.tags[2] == "task_leak"@);
        assert(c.tags[c.tags.len() - 1] == "regression"@);
        if count_ends(ends, TaskEnd::Panicked) > 0 && count_ends(ends, TaskEnd::Leaked) > 0 {
            assert(c.tags[3] == "task_leak"@);
        }
    }
}

/// `count_ends(ends, kind)` is the number of tasks that ended as `kind`:
/// the length of `ends` kept to those entries.
pub proof fn lemma_count_is_number_of_such_tasks(ends: Seq<TaskEnd>, kind: TaskEnd)
    ensures
        count_ends(ends, kind) == ends.filter(|e: TaskEnd| e == kind).len(),
    decreases ends.len(),
{
    reveal(Seq::filter);
    if ends.len() > 0 {
        lemma_count_is_number_of_such_tasks(ends.drop_last(), kind);
    }
}

/// Some task ended as `kind` exactly when the count of `kind` is positive,
/// and every task ended as `kind` exactly when the count is the number of
/// tasks.
pub proof fn lemma_count_presence(ends: Seq<TaskEnd>, kind: TaskEnd)
    ensures
        count_ends(ends, kind) <= ends.len(),
        (count_ends(ends, kind) > 0) == ends.contains(kind),
        (count_ends(ends, kind) == ends.len()) == (forall|i: int|
            0 <= i < ends.len() ==> #[trigger] ends[i] == kind),
    decreases ends.len(),
{
    if ends.len() > 0 {
        let rest = ends.drop_last();
        lemma_count_presence(rest, kind);
        if ends.last() == kind {
            assert(ends[ends.len() - 1] == kind);
        }
        if rest.contains(kind) {
            let j = choose|j: int| 0 <= j < rest.len() && rest[j] == kind;
            assert(ends[j] == kind);
        }
        if ends.contains(kind) && ends.last() != kind {
            let j = choose|j: int| 0 <= j < ends.len() && ends[j] == kind;
            assert(rest[j] == kind);
        }
        if forall|i: int| 0 <= i < ends.len() ==> #[trigger] ends[i] == kind {
            assert(ends[ends.len() - 1] == kind);
            assert forall|i: int| 0 <= i < rest.len() implies #[trigger] rest[i] == kind by {
                assert(ends[i] == kind);
            }
        }
        if count_ends(ends, kind) == ends.len() {
            assert forall|i: int| 0 <= i < ends.len() implies #[trigger] ends[i] == kind by {
                if i < rest.len() {
                    assert(rest[i] == kind);
                }
            }
        }
    }
}

/// What a finalized group reports, in terms of how its tasks ended: it
/// passes exactly when every task completed; a task that panicked makes it
/// fail with `Critical`, tagged `task_panicked`; a task still running makes
/// it fail tagged `task_leak`, with `Error` unless a task also panicked;
/// and its evidence counts, for each way of ending, the tasks that ended
/// that way.
pub proof fn lemma_group_reports_how_tasks_ended(name: Seq<char>, grace: Span, ends: Seq<TaskEnd>)
    ensures
        (group_check(name, grace, ends).verdict == Verdict::Pass) == (forall|i: int|
            0 <= i < ends.len() ==> #[trigger] ends[i] == TaskEnd::Completed),
        ends.contains(TaskEnd::Panicked) ==> {
            &&& group_check(name, grace, ends).verdict == Verdict::Fail
            &&& group_check(name, grace, ends).severity == Some(Severity::Critical)
            &&& group_check(name, grace, ends).has_tag("task_panicked"@)
        },
        ends.contains(TaskEnd::Leaked) ==> {
            &&& group_check(name, grace, ends).verdict == Verdict::Fail
            &&& group_check(name, grace, ends).has_tag("task_leak"@)
        },
        !ends.contains(TaskEnd::Panicked) && ends.contains(TaskEnd::Leaked) ==> group_check(
            name,
            grace,
            ends,
        ).severity == Some(Severity::Error),
        group_check(name, grace, ends).has_measure(
            "completed"@,
            ends.filter(|e: TaskEnd| e == TaskEnd::Completed).len() as u128,
        ),
        group_check(name, grace, ends).has_measure(
            "panicked"@,
            ends.filter(|e: TaskEnd| e == TaskEnd::Panicked).len() as u128,
        ),
        group_check(name, grace, ends).has_measure(
            "leaked"@,
            ends.filter(|e: TaskEnd| e == TaskEnd::Leaked).len() as u128,
        ),
{
    lemma_group_check_contract(name, grace, ends);
    lemma_count_presence(ends, TaskEnd::Completed);
    lemma_count_presence(ends, TaskEnd::Panicked);
    lemma_count_presence(ends, TaskEnd::Leaked);
    lemma_count_is_number_of_such_tasks(ends, TaskEnd::Completed);
    lemma_count_is_number_of_such_tasks(ends, TaskEnd::Panicked);
    lemma_count_is_number_of_such_tasks(ends, TaskEnd::Leaked);
    let c = group_check(name, grace, ends);
    assert(c.evidence[1].0 == "completed"@);
    assert(c.evidence[2].0 == "panicked"@);
    assert(c.evidence[3].0 == "leaked"@);
}

/// The check of the group `name` whose tasks ended as `ends`, joined with
/// the grace period `grace`.
pub fn group_outcome(name: &str, grace: Span, ends: &Vec<TaskEnd>) -> (c: CheckOutcome)
    ensures
        c@ == group_check(name@, grace, ends@),
        c@.follows_async_contract(),
        (c@.verdict == Verdict::Pass) == (forall|i: int|
            0 <= i < ends.len() ==> #[trigger] ends@[i] == TaskEnd::Completed),
        ends@.contains(TaskEnd::Panicked) ==> c@.severity == Some(Severity::Critical),
        ends@.contains(TaskEnd::Leaked) ==> c@.has_tag("task_leak"@),
{
    let mut completed: usize = 0;
    let mut panicked: usize = 0;
    let mut leaked: usize = 0;
    let mut i: usize = 0;
    while i < ends.len()
        invariant
            i <= ends.len(),
            completed == count_ends(ends@.take(i as int), TaskEnd::Completed),
            panicked == count_ends(ends@.take(i as int), TaskEnd::Panicked),
            leaked == count_ends(ends@.take(i as int), TaskEnd::Leaked),
            completed + panicked + leaked == i,
        decreases ends.len() - i,
    {
        proof {
            lemma_counts_step(ends@, i as int);
        }
        match ends[i] {
            TaskEnd::Completed => completed += 1,
            TaskEnd::Panicked => panicked += 1,
            TaskEnd::Leaked => leaked += 1,
        }
        i += 1;
    }
    assert(ends@.take(ends.len() as int) =~= ends@);
    let mut detail = joined("spawned=", decimal(ends.len()).as_str());
    detail.append(" completed=");
    detail.append(decimal(completed).as_str());
    detail.append(" panicked=");
    detail.append(decimal(panicked).as_str());
    detail.append(" leaked=");
    detail.append(decimal(leaked).as_str());
    let full_name = joined("async::tasks::", name);
    let mut evidence = no_measures();
    push_measure(&mut evidence, "spawned", ends.len() as u128);
    push_measure(&mut evidence, "completed", completed as u128);
    push_measure(&mut evidence, "panicked", panicked as u128);
    push_measure(&mut evidence, "leaked", leaked as u128);
    push_measure(&mut evidence, "grace_ms", grace.as_millis());
    let mut tags = no_tags();
    push_tag(&mut tags, "async");
    push_tag(&mut tags, "tasks");
    let c = if panicked > 0 {
        push_tag(&mut tags, "task_panicked");
        if leaked > 0 {
            push_tag(&mut tags, "task_leak");
        }
        push_tag(&mut tags, "regression");
        CheckOutcome {
            name: full_name,
            verdict: Verdict::Fail,
            severity: Some(Severity::Critical),
            detail: Some(detail),
            duration_ms: None,
            tags,
            evidence,
        }
    } else if leaked > 0 {
        push_tag(&mut tags, "task_leak");
        push_tag(&mut tags, "regression");
        CheckOutcome {
            name: full_name,
            verdict: Verdict::Fail,
            severity: Some(Severity::Error),
            detail: Some(detail),
            duration_ms: None,
            tags,
            evidence,
        }
    } else {
        CheckOutcome {
            name: full_name,
            verdict: Verdict::Pass,
            severity: None,
            detail: Some(detail),
            duration_ms: None,
            tags,
            evidence,
        }
    };
    assert(c@ =~= group_check(name@, grace, ends@));
    proof {
        lemma_group_check_contract(name@, grace, ends@);
        lemma_group_reports_how_tasks_ended(name@, grace, ends@);
    }
    c
}

} // verus!
