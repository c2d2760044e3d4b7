//! Graceful-shutdown verification.
//!
//! A [`ShutdownProbe`] names a set of components, each with a drain check
//! that reports `true` once the component has stopped cleanly. Running the
//! probe polls each component in turn, on a fixed interval, until it drains
//! or the probe's deadline (measured from the start of the run) has passed,
//! and reports one check per component plus an aggregate.
//!
//! The run itself is the state machine [`ShutdownRun`]: the caller performs
//! the action that [`ShutdownRun::step`] returns (call a drain check, sleep)
//! and hands back what happened, with a clock reading taken since the run
//! started.

use vstd::prelude::*;

use crate::check::{
    no_measures, no_tags, push_measure, push_tag, texts, CheckOutcome, CheckView, Severity, Verdict,
};
use crate::span::Span;
use crate::text::{joined, owned, span_debug, span_text};

verus! {

/// A component to drain: a name and the check that reports whether it
/// has drained.
pub struct ShutdownComponent<D> {
    name: String,
    drain_check: D,
}

impl<D> ShutdownComponent<D> {
    /// The component's name.
    pub closed spec fn spec_name(&self) -> Seq<char> {
        self.name@
    }

    /// The component's drain check.
    pub closed spec fn spec_drain_check(&self) -> D {
        self.drain_check
    }

    /// A component called `name` whose drain check is `drain_check`.
    pub fn new(name: String, drain_check: D) -> (c: Self)
        ensures
            c.spec_name() == name@,
            c.spec_drain_check() == drain_check,
    {
        ShutdownComponent { name, drain_check }
    }

    /// The component's name.
    pub fn name(&self) -> (r: &str)
        ensures
            r@ == self.spec_name(),
    {
        self.name.as_str()
    }
}

/// A probe over a set of components, built up with `deadline`,
/// `poll_interval` and `with_component`.
pub struct ShutdownProbe<D> {
    name: String,
    names: Vec<String>,
    drains: Vec<D>,
    deadline: Span,
    poll_interval: Span,
}

/// A probe as mathematical values.
#[verifier::ext_equal]
pub struct ProbeView<D> {
    pub name: Seq<char>,
    pub component_names: Seq<Seq<char>>,
    pub drain_checks: Seq<D>,
    pub deadline: Span,
    pub poll_interval: Span,
}

impl<D> View for ShutdownProbe<D> {
    type V = ProbeView<D>;

    closed spec fn view(&self) -> ProbeView<D> {
        ProbeView {
            name: self.name@,
            component_names: texts(self.names@),
            drain_checks: self.drains@,
            deadline: self.deadline,
            poll_interval: self.poll_interval,
        }
    }
}

impl<D> ShutdownProbe<D> {
    /// Every component has one drain check.
    #[verifier::type_invariant]
    spec fn wf(&self) -> bool {
        self.names.len() == self.drains.len()
    }

    /// A probe called `name` with no components, a deadline of five
    /// seconds and a poll interval of fifty milliseconds.
    pub fn new(name: String) -> (p: Self)
        ensures
            p@.name == name@,
            p@.component_names.len() == 0,
            p@.drain_checks.len() == 0,
            p@.deadline.total_nanos() == 5_000_000_000,
            p@.poll_interval.total_nanos() == 50_000_000,
    {
        let names: Vec<String> = Vec::new();
        assert(texts(names@) =~= Seq::<Seq<char>>::empty());
        ShutdownProbe {
            name,
            names,
            drains: Vec::new(),
            deadline: Span::from_secs(5),
            poll_interval: Span::from_millis(50),
        }
    }

    /// The same probe with the deadline `d`.
    pub fn deadline(self, d: Span) -> (p: Self)
        ensures
            p@ == (ProbeView { deadline: d, ..self@ }),
    {
        proof {
            use_type_invariant(&self);
        }
        let ShutdownProbe { name, names, drains, deadline: _, poll_interval } = self;
        ShutdownProbe { name, names, drains, deadline: d, poll_interval }
    }

    /// The same probe polling every `d`.
    pub fn poll_interval(self, d: Span) -> (p: Self)
        ensures
            p@ == (ProbeView { poll_interval: d, ..self@ }),
    {
        proof {
            use_type_invariant(&self);
        }
        let ShutdownProbe { name, names, drains, deadline, poll_interval: _ } = self;
        ShutdownProbe { name, names, drains, deadline, poll_interval: d }
    }

    /// The same probe with `component` added after the others.
    pub fn with_component(self, component: ShutdownComponent<D>) -> (p: Self)
        ensures
            p@ == (ProbeView {
                component_names: self@.component_names.push(component.spec_name()),
                drain_checks: self@.drain_checks.push(component.spec_drain_check()),
                ..self@
            }),
    {
        proof {
            use_type_invariant(&self);
        }
        let ShutdownProbe { name: probe_name, mut names, mut drains, deadline, poll_interval } =
            self;
        let ShutdownComponent { name, drain_check } = component;
        push_string(&mut names, name);
        drains.push(drain_check);
        ShutdownProbe { name: probe_name, names, drains, deadline, poll_interval }
    }

    /// Starts a run over the probe's components; hands back the drain
    /// checks in component order, so that `CheckDrain { component: i }`
    /// names the `i`-th of them.
    pub fn into_run(self) -> (r: (ShutdownRun, Vec<D>))
        ensures
            r.0@.well_formed(),
            r.0@.phase == RunPhase::NotStarted,
            r.0@.index == 0,
            r.0@.outcomes.len() == 0,
            r.0@.group == self@.name,
            r.0@.names == self@.component_names,
            r.0@.deadline == self@.deadline,
            r.0@.interval == self@.poll_interval,
            r.1@ == self@.drain_checks,
    {
        proof {
            use_type_invariant(&self);
        }
        let ShutdownProbe { name, names, drains, deadline, poll_interval } = self;
        let results: Vec<CheckOutcome> = Vec::new();
        let state = RunState {
            group: name,
            deadline,
            interval: poll_interval,
            names,
            phase: RunPhase::NotStarted,
            index: 0,
            mark: Span::zero(),
            failed_any: false,
            results,
            outcomes: Ghost(Seq::empty()),
        };
        assert(state@.results =~= Seq::<CheckView>::empty());
        (ShutdownRun { state }, drains)
    }
}

/// Appends `s` to `v`.
fn push_string(v: &mut Vec<String>, s: String)
    ensures
        final(v)@.len() == old(v)@.len() + 1,
        texts(final(v)@) == texts(old(v)@).push(s@),
{
    let ghost t = s@;
    v.push(s);
    assert(texts(final(v)@) =~= texts(old(v)@).push(t));
}

/// Where a run stands.
#[derive(Clone, Copy, Debug, PartialEq, Eq, Structural)]
pub enum RunPhase {
    /// Waiting for `Start`.
    NotStarted,
    /// Waiting for the result of the current component's drain check.
    AwaitingDrain,
    /// Waiting for the poll interval to pass.
    Sleeping,
    /// All checks are reported.
    Finished,
}

/// What happened since the last action; `now` is a clock reading taken
/// since the run started.
#[derive(Clone, Copy, Debug)]
pub enum ShutdownEvent {
    /// The run starts.
    Start { now: Span },
    /// The drain check of the current component returned `drained`.
    DrainChecked { drained: bool, now: Span },
    /// The poll interval has passed.
    Woke { now: Span },
}

/// What the caller does next.
#[derive(Clone, Copy, Debug, PartialEq, Eq)]
pub enum ShutdownAction {
    /// Call the drain check of component `component`, then send
    /// `DrainChecked`.
    CheckDrain { component: usize },
    /// Sleep for `interval`, then send `Woke`.
    Sleep { interval: Span },
    /// Nothing is left to do; the checks are ready.
    Finished,
}

/// How one component's polling ended.
pub struct ComponentOutcome {
    /// Its drain check reported `true` before the deadline.
    pub drained: bool,
    /// Time from the start of its polling to the end.
    pub elapsed: Span,
    /// Clock reading at the end of its polling.
    pub at: Span,
}

/// The name of the check for component `component` of probe `group`.
pub open spec fn component_check_name(group: Seq<char>, component: Seq<char>) -> Seq<char> {
    "async::shutdown::"@ + group + "::"@ + component
}

/// The check reported for one component.
pub open spec fn component_check(
    group: Seq<char>,
    component: Seq<char>,
    drained: bool,
    elapsed: Span,
    deadline: Span,
    interval: Span,
) -> CheckView {
    let evidence = seq![
        ("elapsed_ms"@, elapsed.total_millis() as u128),
        ("deadline_ms"@, deadline.total_millis() as u128),
        ("poll_interval_ms"@, interval.total_millis() as u128),
    ];
    if drained {
        CheckView {
            name: component_check_name(group, component),
            verdict: Verdict::Pass,
            severity: None,
            detail: Some("drained in "@ + span_text(elapsed)),
            duration_ms: Some(elapsed.total_millis() as u64),
            tags: seq!["async"@, "shutdown"@],
            evidence,
        }
    } else {
        CheckView {
            name: component_check_name(group, component),
            verdict: Verdict::Fail,
            severity: Some(Severity::Error),
            detail: Some("did not drain within "@ + span_text(deadline)),
            duration_ms: None,
            tags: seq!["async"@, "shutdown"@, "not_drained"@, "regression"@],
            evidence,
        }
    }
}

/// The aggregate check of probe `group` over `count` components.
pub open spec fn aggregate_check(
    group: Seq<char>,
    all_drained: bool,
    count: nat,
    total: Span,
    deadline: Span,
) -> CheckView {
    let evidence = seq![
        ("components"@, count as u128),
        ("elapsed_ms"@, total.total_millis() as u128),
        ("deadline_ms"@, deadline.total_millis() as u128),
    ];
    if all_drained {
        CheckView {
            name: "async::shutdown::"@ + group,
            verdict: Verdict::Pass,
            severity: None,
            detail: Some("all components drained"@),
            duration_ms: Some(total.total_millis() as u64),
            tags: seq!["async"@, "shutdown"@, "aggregate"@],
            evidence,
        }
    } else {
        CheckView {
            name: "async::shutdown::"@ + group,
            verdict: Verdict::Fail,
            severity: Some(Severity::Error),
            detail: Some("one or more components did not drain"@),
            duration_ms: None,
            tags: seq!["async"@, "shutdown"@, "aggregate"@, "regression"@],
            evidence,
        }
    }
}

/// Every component of `outcomes` drained.
pub open spec fn all_drained(outcomes: Seq<ComponentOutcome>) -> bool {
    forall|i: int| 0 <= i < outcomes.len() ==> #[trigger] outcomes[i].drained
}

/// A run as mathematical values.
pub struct RunView {
    pub group: Seq<char>,
    pub deadline: Span,
    pub interval: Span,
    pub names: Seq<Seq<char>>,
    pub phase: RunPhase,
    /// The component being polled; all before it are reported.
    pub index: nat,
    /// Clock reading at which the current component's polling started,
    /// or at which the run finished.
    pub mark: Span,
    pub outcomes: Seq<ComponentOutcome>,
    pub results: Seq<CheckView>,
}

impl RunView {
    /// `event` is the one the run waits for.
    pub open spec fn accepts(self, event: ShutdownEvent) -> bool {
        match event {
            ShutdownEvent::Start { .. } => self.phase == RunPhase::NotStarted,
            ShutdownEvent::DrainChecked { .. } => self.phase == RunPhase::AwaitingDrain,
            ShutdownEvent::Woke { .. } => self.phase == RunPhase::Sleeping,
        }
    }

    /// The current component's polling ends at `now`, drained or not;
    /// the next component's polling starts at `now`.
    pub open spec fn conclude(self, drained: bool, now: Span) -> RunView {
        let elapsed = Span::spec_sub(now, self.mark);
        RunView {
            index: self.index + 1,
            mark: now,
            outcomes: self.outcomes.push(ComponentOutcome { drained, elapsed, at: now }),
            results: self.results.push(
                component_check(
                    self.group,
                    self.names[self.index as int],
                    drained,
                    elapsed,
                    self.deadline,
                    self.interval,
                ),
            ),
            ..self
        }
    }

    /// All components are reported at `now`: the aggregate follows.
    pub open spec fn finish(self, now: Span) -> (RunView, ShutdownAction) {
        (
            RunView {
                phase: RunPhase::Finished,
                mark: now,
                results: self.results.push(
                    aggregate_check(
                        self.group,
                        all_drained(self.outcomes),
                        self.names.len(),
                        now,
                        self.deadline,
                    ),
                ),
                ..self
            },
            ShutdownAction::Finished,
        )
    }

    /// At clock reading `now`, the top of the polling loop: past the
    /// deadline the current component is reported as not drained and the
    /// next one is taken up at once; before it, its drain check is due.
    pub open spec fn settle(self, now: Span) -> (RunView, ShutdownAction)
        decreases self.names.len() - self.index,
    {
        if self.index >= self.names.len() {
            self.finish(now)
        } else if now.total_nanos() >= self.deadline.total_nanos() {
            self.conclude(false, now).settle(now)
        } else {
            (
                RunView { phase: RunPhase::AwaitingDrain, ..self },
                ShutdownAction::CheckDrain { component: self.index as usize },
            )
        }
    }

    /// The state and action after `event`. A drain check that reports
    /// `true` only at or after the deadline leaves its component not
    /// drained.
    pub open spec fn next(self, event: ShutdownEvent) -> (RunView, ShutdownAction) {
        match event {
            ShutdownEvent::Start { now } => RunView { mark: now, ..self }.settle(now),
            ShutdownEvent::DrainChecked { drained, now } => {
                if drained {
                    self.conclude(now.total_nanos() < self.deadline.total_nanos(), now).settle(now)
                } else {
                    (
                        RunView { phase: RunPhase::Sleeping, ..self },
                        ShutdownAction::Sleep { interval: self.interval },
                    )
                }
            },
            ShutdownEvent::Woke { now } => self.settle(now),
        }
    }

    /// The reported components match their outcomes, and a component is
    /// reported as drained exactly when its polling ended before the
    /// deadline.
    pub open spec fn reported(self) -> bool {
        &&& self.index <= self.names.len()
        &&& self.outcomes.len() == self.index
        &&& forall|i: int|
            0 <= i < self.index ==> #[trigger] self.results[i] == component_check(
                self.group,
                self.names[i],
                self.outcomes[i].drained,
                self.outcomes[i].elapsed,
                self.deadline,
                self.interval,
            )
        &&& forall|i: int|
            0 <= i < self.index ==> #[trigger] self.outcomes[i].drained == (
            self.outcomes[i].at.total_nanos() < self.deadline.total_nanos())
    }

    /// What holds of a run in each phase.
    pub open spec fn well_formed(self) -> bool {
        &&& self.reported()
        &&& match self.phase {
            RunPhase::NotStarted => self.index == 0 && self.results.len() == 0,
            RunPhase::AwaitingDrain => self.index < self.names.len() && self.results.len()
                == self.index,
            RunPhase::Sleeping => self.index < self.names.len() && self.results.len()
                == self.index,
            RunPhase::Finished => {
                &&& self.index == self.names.len()
                &&& self.results.len() == self.index + 1
                &&& self.results[self.index as int] == aggregate_check(
                    self.group,
                    all_drained(self.outcomes),
                    self.names.len(),
                    self.mark,
                    self.deadline,
                )
            },
        }
    }
}

/// The time reading an event carries.
pub open spec fn event_time(event: ShutdownEvent) -> Span {
    match event {
        ShutdownEvent::Start { now } => now,
        ShutdownEvent::DrainChecked { now, .. } => now,
        ShutdownEvent::Woke { now } => now,
    }
}

/// A drained component records the time its polling took, in whole
/// milliseconds, as its duration and as `elapsed_ms`; every component
/// check records the deadline and the poll interval; the aggregate counts
/// the components and records the total time, which is also its duration
/// when every component drained.
pub proof fn lemma_probe_checks_record_times(
    group: Seq<char>,
    component: Seq<char>,
    drained: bool,
    elapsed: Span,
    deadline: Span,
    interval: Span,
    count: nat,
    total: Span,
)
    ensures
        component_check(group, component, drained, elapsed, deadline, interval).evidence == seq![
            ("elapsed_ms"@, (elapsed.total_nanos() / 1_000_000) as u128),
            ("deadline_ms"@, (deadline.total_nanos() / 1_000_000) as u128),
            ("poll_interval_ms"@, (interval.total_nanos() / 1_000_000) as u128),
        ],
        drained ==> component_check(group, component, drained, elapsed, deadline, interval).duration_ms
            == Some((elapsed.total_nanos() / 1_000_000) as u64),
        aggregate_check(group, drained, count, total, deadline).evidence == seq![
            ("components"@, count as u128),
            ("elapsed_ms"@, (total.total_nanos() / 1_000_000) as u128),
            ("deadline_ms"@, (deadline.total_nanos() / 1_000_000) as u128),
        ],
        drained ==> aggregate_check(group, drained, count, total, deadline).duration_ms == Some(
            (total.total_nanos() / 1_000_000) as u64,
        ),
{
}

/// Every component check and every aggregate check follows the
/// library's reporting contract.
pub proof fn lemma_probe_checks_follow_async_contract(
    group: Seq<char>,
    component: Seq<char>,
    drained: bool,
    elapsed: Span,
    deadline: Span,
    interval: Span,
    count: nat,
    total: Span,
)
    ensures
        component_check(group, component, drained, elapsed, deadline, interval).follows_async_contract(),
        aggregate_check(group, drained, count, total, deadline).follows_async_contract(),
{
    let c = component_check(group, component, drained, elapsed, deadline, interval);
    let a = aggregate_check(group, drained, count, total, deadline);
    assert(c.tags[0] == "async"@);
    assert(a.tags[0] == "async"@);
    if !drained {
        assert(c.tags[3] == "regression"@);
        assert(a.tags[3] == "regression"@);
    }
}

/// Polling reaches the top of its loop only before the deadline: a step
/// asks for a drain check only when the clock reading it was given is
/// still short of the deadline.
pub proof fn lemma_drain_checked_only_before_deadline(run: RunView, event: ShutdownEvent)
    ensures
        run.next(event).1 is CheckDrain ==> event_time(event).total_nanos()
            < run.deadline.total_nanos(),
{
    match event {
        ShutdownEvent::Start { now } => {
            lemma_settle_polls_before_deadline(RunView { mark: now, ..run }, now);
        },
        ShutdownEvent::DrainChecked { drained, now } => {
            if drained {
                lemma_settle_polls_before_deadline(
                    run.conclude(now.total_nanos() < run.deadline.total_nanos(), now),
                    now,
                );
            }
        },
        ShutdownEvent::Woke { now } => {
            lemma_settle_polls_before_deadline(run, now);
        },
    }
}

/// A drain check is asked of the component being polled and of no other:
/// when a step asks for the drain check of component `c`, `c` is the
/// component whose check is reported next, and the run waits for that
/// answer.
pub proof fn lemma_drain_check_names_current_component(run: RunView, event: ShutdownEvent)
    requires
        run.well_formed(),
        run.names.len() <= usize::MAX,
        run.accepts(event),
    ensures
        run.next(event).1 matches ShutdownAction::CheckDrain { component } ==> {
            &&& component as nat == run.next(event).0.index
            &&& (component as int) < run.next(event).0.names.len()
            &&& run.next(event).0.results.len() == component as nat
            &&& run.next(event).0.phase == RunPhase::AwaitingDrain
        },
{
    match event {
        ShutdownEvent::Start { now } => {
            lemma_settle_checks_current(RunView { mark: now, ..run }, now);
        },
        ShutdownEvent::DrainChecked { drained, now } => {
            if drained {
                lemma_settle_checks_current(
                    run.conclude(now.total_nanos() < run.deadline.total_nanos(), now),
                    now,
                );
            }
        },
        ShutdownEvent::Woke { now } => {
            lemma_settle_checks_current(run, now);
        },
    }
}

/// `settle` asks for the drain check of the component it stops at.
proof fn lemma_settle_checks_current(run: RunView, now: Span)
    requires
        run.index <= run.names.len(),
        run.names.len() <= usize::MAX,
        run.results.len() == run.index,
    ensures
        run.settle(now).1 matches ShutdownAction::CheckDrain { component } ==> {
            &&& component as nat == run.settle(now).0.index
            &&& (component as int) < run.settle(now).0.names.len()
            &&& run.settle(now).0.results.len() == component as nat
            &&& run.settle(now).0.phase == RunPhase::AwaitingDrain
        },
    decreases run.names.len() - run.index,
{
    if run.index < run.names.len() && now.total_nanos() >= run.deadline.total_nanos() {
        lemma_settle_checks_current(run.conclude(false, now), now);
    }
}

/// The answer of the current component's drain check decides that
/// component's own report: after `DrainChecked { drained, now }`, the check
/// reported for the component being polled names that component, and it
/// passes exactly when `drained` is `true` and `now` is short of the
/// deadline; when `drained` is `false` nothing is reported yet and the run
/// sleeps for the poll interval.
pub proof fn lemma_drain_answer_decides_its_component(run: RunView, drained: bool, now: Span)
    requires
        run.well_formed(),
        run.phase == RunPhase::AwaitingDrain,
    ensures
        drained ==> {
            let after = run.next(ShutdownEvent::DrainChecked { drained, now }).0;
            &&& after.results.len() > run.index
            &&& after.results[run.index as int].name == component_check_name(
                run.group,
                run.names[run.index as int],
            )
            &&& (after.results[run.index as int].verdict == Verdict::Pass) == (now.total_nanos()
                < run.deadline.total_nanos())
        },
        !drained ==> run.next(ShutdownEvent::DrainChecked { drained, now }) == (
            RunView { phase: RunPhase::Sleeping, ..run },
            ShutdownAction::Sleep { interval: run.interval },
        ),
{
    if drained {
        let in_time = now.total_nanos() < run.deadline.total_nanos();
        let concluded = run.conclude(in_time, now);
        lemma_settle_keeps_results(concluded, now);
    }
}

/// `settle` only appends to the reports.
proof fn lemma_settle_keeps_results(run: RunView, now: Span)
    ensures
        run.settle(now).0.results.len() >= run.results.len(),
        forall|i: int|
            0 <= i < run.results.len() ==> #[trigger] run.settle(now).0.results[i] == run.results[i],
    decreases run.names.len() - run.index,
{
    if run.index < run.names.len() && now.total_nanos() >= run.deadline.total_nanos() {
        lemma_settle_keeps_results(run.conclude(false, now), now);
    }
}

/// `settle` asks for a drain check only before the deadline.
proof fn lemma_settle_polls_before_deadline(run: RunView, now: Span)
    ensures
        run.settle(now).1 is CheckDrain ==> now.total_nanos() < run.deadline.total_nanos(),
    decreases run.names.len() - run.index,
{
    if run.index < run.names.len() && now.total_nanos() >= run.deadline.total_nanos() {
        lemma_settle_polls_before_deadline(run.conclude(false, now), now);
    }
}

/// A finished run reports one check per component, in order, and the
/// aggregate last; the aggregate passes exactly when every component's
/// check passed; a component passes exactly when its drain check reported
/// drained before the deadline, and otherwise fails tagged `not_drained`.
pub proof fn lemma_finished_run_reports(run: RunView)
    requires
        run.well_formed(),
        run.phase == RunPhase::Finished,
    ensures
        run.results.len() == run.names.len() + 1,
        forall|i: int|
            0 <= i < run.names.len() ==> (#[trigger] run.results[i]).name
                == component_check_name(run.group, run.names[i]),
        run.results.last().name == "async::shutdown::"@ + run.group,
        run.results.last().has_tag("aggregate"@),
        run.results.last().verdict == Verdict::Pass <==> (forall|i: int|
            0 <= i < run.names.len() ==> (#[trigger] run.results[i]).verdict == Verdict::Pass),
        forall|i: int|
            0 <= i < run.names.len() && (#[trigger] run.results[i]).verdict == Verdict::Fail
                ==> run.results[i].has_tag("not_drained"@) && run.outcomes[i].at.total_nanos()
                >= run.deadline.total_nanos(),
        forall|i: int|
            0 <= i < run.names.len() ==> ((#[trigger] run.results[i]).verdict == Verdict::Pass
                <==> run.outcomes[i].drained && run.outcomes[i].at.total_nanos()
                < run.deadline.total_nanos()),
        forall|i: int| 0 <= i < run.results.len() ==> (#[trigger] run.results[i]).follows_async_contract(),
{
    let n = run.names.len() as int;
    let last = run.results.last();
    assert(last.tags[2] == "aggregate"@);
    assert forall|i: int| 0 <= i < n implies ((#[trigger] run.results[i]).verdict == Verdict::Pass
        <==> run.outcomes[i].drained) by {}
    if last.verdict == Verdict::Pass {
        assert(all_drained(run.outcomes));
    } else {
        assert(!all_drained(run.outcomes));
        let k = choose|k: int| 0 <= k < run.outcomes.len() && !#[trigger] run.outcomes[k].drained;
        assert(run.results[k].verdict != Verdict::Pass);
    }
    assert forall|i: int|
        0 <= i < n && (#[trigger] run.results[i]).verdict == Verdict::Fail implies run.results[i].has_tag(
        "not_drained"@) && run.outcomes[i].at.total_nanos() >= run.deadline.total_nanos() by {
        assert(run.results[i].tags[2] == "not_drained"@);
    }
    assert forall|i: int| 0 <= i < run.results.len() implies (#[trigger] run.results[i]).follows_async_contract() by {
        if i < n {
            lemma_probe_checks_follow_async_contract(
                run.group,
                run.names[i],
                run.outcomes[i].drained,
                run.outcomes[i].elapsed,
                run.deadline,
                run.interval,
                0,
                run.mark,
            );
        } else {
            lemma_probe_checks_follow_async_contract(
                run.group,
                run.group,
                all_drained(run.outcomes),
                run.mark,
                run.deadline,
                run.interval,
                run.names.len(),
                run.mark,
            );
        }
    }
}

/// A run that is not finished has reported exactly the components before
/// the current one, each following the reporting contract.
pub proof fn lemma_running_reports_prefix(run: RunView)
    requires
        run.well_formed(),
        run.phase != RunPhase::Finished,
    ensures
        run.results.len() == run.index,
        forall|i: int| 0 <= i < run.results.len() ==> (#[trigger] run.results[i]).follows_async_contract(),
{
    assert forall|i: int| 0 <= i < run.results.len() implies (#[trigger] run.results[i]).follows_async_contract() by {
        lemma_probe_checks_follow_async_contract(
            run.group,
            run.names[i],
            run.outcomes[i].drained,
            run.outcomes[i].elapsed,
            run.deadline,
            run.interval,
            0,
            run.mark,
        );
    }
}

/// A run over no components finishes on `Start`, with a passing aggregate
/// as its only check.
pub proof fn lemma_empty_probe_passes(run: RunView, now: Span)
    requires
        run.well_formed(),
        run.phase == RunPhase::NotStarted,
        run.names.len() == 0,
    ensures
        run.next(ShutdownEvent::Start { now }).1 == ShutdownAction::Finished,
        run.next(ShutdownEvent::Start { now }).0.results.len() == 1,
        run.next(ShutdownEvent::Start { now }).0.results[0].verdict == Verdict::Pass,
{
    assert(all_drained(run.outcomes));
}

/// The state of a run, with the bookkeeping its steps need.
struct RunState {
    group: String,
    deadline: Span,
    interval: Span,
    names: Vec<String>,
    phase: RunPhase,
    index: usize,
    mark: Span,
    failed_any: bool,
    results: Vec<CheckOutcome>,
    outcomes: Ghost<Seq<ComponentOutcome>>,
}

impl View for RunState {
    type V = RunView;

    closed spec fn view(&self) -> RunView {
        RunView {
            group: self.group@,
            deadline: self.deadline,
            interval: self.interval,
            names: texts(self.names@),
            phase: self.phase,
            index: self.index as nat,
            mark: self.mark,
            outcomes: self.outcomes@,
            results: self.results@.map_values(|c: CheckOutcome| c@),
        }
    }
}

/// The check reported for one component.
fn build_component_check(
    group: &str,
    component: &str,
    drained: bool,
    elapsed: Span,
    deadline: Span,
    interval: Span,
) -> (c: CheckOutcome)
    ensures
        c@ == component_check(group@, component@, drained, elapsed, deadline, interval),
{
    let mut name = joined("async::shutdown::", group);
    name.append("::");
    name.append(component);
    let mut evidence = no_measures();
    push_measure(&mut evidence, "elapsed_ms", elapsed.as_millis());
    push_measure(&mut evidence, "deadline_ms", deadline.as_millis());
    push_measure(&mut evidence, "poll_interval_ms", interval.as_millis());
    let mut tags = no_tags();
    push_tag(&mut tags, "async");
    push_tag(&mut tags, "shutdown");
    if drained {
        let text = span_debug(&elapsed);
        let c = CheckOutcome {
            name,
            verdict: Verdict::Pass,
            severity: None,
            detail: Some(joined("drained in ", text.as_str())),
            duration_ms: Some(elapsed.as_millis() as u64),
            tags,
            evidence,
        };
        assert(c@ =~= component_check(group@, component@, drained, elapsed, deadline, interval));
        c
    } else {
        push_tag(&mut tags, "not_drained");
        push_tag(&mut tags, "regression");
        let text = span_debug(&deadline);
        let c = CheckOutcome {
            name,
            verdict: Verdict::Fail,
            severity: Some(Severity::Error),
            detail: Some(joined("did not drain within ", text.as_str())),
            duration_ms: None,
            tags,
            evidence,
        };
        assert(c@ =~= component_check(group@, component@, drained, elapsed, deadline, interval));
        c
    }
}

/// The aggregate check.
fn build_aggregate_check(
    group: &str,
    all_drained: bool,
    count: usize,
    total: Span,
    deadline: Span,
) -> (c: CheckOutcome)
    ensures
        c@ == aggregate_check(group@, all_drained, count as nat, total, deadline),
{
    let name = joined("async::shutdown::", group);
    let mut evidence = no_measures();
    push_measure(&mut evidence, "components", count as u128);
    push_measure(&mut evidence, "elapsed_ms", total.as_millis());
    push_measure(&mut evidence, "deadline_ms", deadline.as_millis());
    let mut tags = no_tags();
    push_tag(&mut tags, "async");
    push_tag(&mut tags, "shutdown");
    push_tag(&mut tags, "aggregate");
    if all_drained {
        let c = CheckOutcome {
            name,
            verdict: Verdict::Pass,
            severity: None,
            detail: Some(owned("all components drained")),
            duration_ms: Some(total.as_millis() as u64),
            tags,
            evidence,
        };
        assert(c@ =~= aggregate_check(group@, all_drained, count as nat, total, deadline));
        c
    } else {
        push_tag(&mut tags, "regression");
        let c = CheckOutcome {
            name,
            verdict: Verdict::Fail,
            severity: Some(Severity::Error),
            detail: Some(owned("one or more components did not drain")),
            duration_ms: None,
            tags,
            evidence,
        };
        assert(c@ =~= aggregate_check(group@, all_drained, count as nat, total, deadline));
        c
    }
}

impl RunState {
    /// The run's fields agree with its view: the drain flag says whether a
    /// reported component failed to drain.
    closed spec fn flags_agree(&self) -> bool {
        &&& self.failed_any == !all_drained(self.outcomes@)
        &&& self.names.len() <= usize::MAX
    }

    /// The run is consistent in its current phase.
    spec fn wf(&self) -> bool {
        &&& self@.well_formed()
        &&& self.flags_agree()
    }

    /// A run over no components that has not started.
    fn idle() -> (r: RunState)
        ensures
            r.wf(),
    {
        let names: Vec<String> = Vec::new();
        let state = RunState {
            group: String::new(),
            deadline: Span::zero(),
            interval: Span::zero(),
            names,
            phase: RunPhase::NotStarted,
            index: 0,
            mark: Span::zero(),
            failed_any: false,
            results: Vec::new(),
            outcomes: Ghost(Seq::empty()),
        };
        assert(state@.results =~= Seq::<CheckView>::empty());
        assert(texts(state.names@) =~= Seq::<Seq<char>>::empty());
        state
    }

    /// Where the run stands.
    fn phase(&self) -> (r: RunPhase)
        ensures
            r == self@.phase,
    {
        self.phase
    }

    /// Whether the run waits for `event`.
    fn accepts(&self, event: &ShutdownEvent) -> (r: bool)
        ensures
            r == self@.accepts(*event),
    {
        match event {
            ShutdownEvent::Start { .. } => self.phase == RunPhase::NotStarted,
            ShutdownEvent::DrainChecked { .. } => self.phase == RunPhase::AwaitingDrain,
            ShutdownEvent::Woke { .. } => self.phase == RunPhase::Sleeping,
        }
    }

    /// Reports the current component, drained or not, at `now`.
    fn conclude(&mut self, drained: bool, now: Span)
        requires
            old(self)@.reported(),
            old(self)@.results.len() == old(self)@.index,
            old(self)@.index < old(self)@.names.len(),
            old(self).flags_agree(),
            drained == (now.total_nanos() < old(self)@.deadline.total_nanos()),
        ensures
            final(self)@ == old(self)@.conclude(drained, now),
            final(self)@.reported(),
            final(self)@.results.len() == final(self)@.index,
            final(self).flags_agree(),
    {
        let ghost before = self@;
        let elapsed = now.saturating_sub(&self.mark);
        let c = build_component_check(
            self.group.as_str(),
            self.names[self.index].as_str(),
            drained,
            elapsed,
            self.deadline,
            self.interval,
        );
        self.results.push(c);
        self.outcomes = Ghost(
            self.outcomes@.push(ComponentOutcome { drained, elapsed, at: now }),
        );
        if !drained {
            self.failed_any = true;
        }
        self.index = self.index + 1;
        self.mark = now;
        proof {
            let after = before.conclude(drained, now);
            assert(self@.results =~= after.results);
            assert(self@ =~= after);
            if drained {
                assert(all_drained(self@.outcomes) == all_drained(before.outcomes)) by {
                    if all_drained(before.outcomes) {
                        assert forall|i: int| 0 <= i < self@.outcomes.len() implies #[trigger]
                            self@.outcomes[i].drained by {
                            if i < before.outcomes.len() {
                                assert(self@.outcomes[i] == before.outcomes[i]);
                            }
                        }
                    } else {
                        let k = choose|k: int| 0 <= k < before.outcomes.len() && !#[trigger] before.outcomes[k].drained;
                        assert(self@.outcomes[k] == before.outcomes[k]);
                    }
                }
            } else {
                let k = before.outcomes.len() as int;
                assert(!self@.outcomes[k].drained);
            }
            assert forall|i: int| 0 <= i < self@.index implies #[trigger] self@.results[i]
                == component_check(
                self@.group,
                self@.names[i],
                self@.outcomes[i].drained,
                self@.outcomes[i].elapsed,
                self@.deadline,
                self@.interval,
            ) by {
                if i < before.index {
                    assert(self@.results[i] == before.results[i]);
                    assert(self@.outcomes[i] == before.outcomes[i]);
                }
            }
            assert forall|i: int| 0 <= i < self@.index implies #[trigger] self@.outcomes[i].drained
                == (self@.outcomes[i].at.total_nanos() < self@.deadline.total_nanos()) by {
                if i < before.index {
                    assert(self@.outcomes[i] == before.outcomes[i]);
                }
            }
        }
    }

    /// Reports the aggregate at `now`.
    fn finish(&mut self, now: Span) -> (action: ShutdownAction)
        requires
            old(self)@.reported(),
            old(self)@.results.len() == old(self)@.index,
            old(self)@.index == old(self)@.names.len(),
            old(self).flags_agree(),
        ensures
            (final(self)@, action) == old(self)@.finish(now),
            final(self).wf(),
    {
        let ghost before = self@;
        let c = build_aggregate_check(
            self.group.as_str(),
            !self.failed_any,
            self.names.len(),
            now,
            self.deadline,
        );
        self.results.push(c);
        self.phase = RunPhase::Finished;
        self.mark = now;
        proof {
            let after = before.finish(now).0;
            assert(self@.results =~= after.results);
            assert(self@ =~= after);
            assert forall|i: int| 0 <= i < self@.index implies #[trigger] self@.results[i]
                == component_check(
                self@.group,
                self@.names[i],
                self@.outcomes[i].drained,
                self@.outcomes[i].elapsed,
                self@.deadline,
                self@.interval,
            ) by {
                assert(self@.results[i] == before.results[i]);
            }
        }
        ShutdownAction::Finished
    }

    /// The top of the polling loop at `now`.
    fn settle(&mut self, now: Span) -> (action: ShutdownAction)
        requires
            old(self)@.reported(),
            old(self)@.results.len() == old(self)@.index,
            old(self).flags_agree(),
            old(self)@.phase != RunPhase::Finished,
        ensures
            (final(self)@, action) == old(self)@.settle(now),
            final(self).wf(),
    {
        let ghost target = self@.settle(now);
        loop
            invariant
                self@.reported(),
                self@.results.len() == self@.index,
                self.flags_agree(),
                self@.phase != RunPhase::Finished,
                self@.settle(now) == target,
                target == old(self)@.settle(now),
            decreases self.names.len() - self.index,
        {
            assert(self@.names.len() == self.names.len());
            if self.index >= self.names.len() {
                assert(self@.settle(now) == self@.finish(now));
                return self.finish(now);
            }
            if now.at_least(&self.deadline) {
                self.conclude(false, now);
            } else {
                let ghost before = self@;
                self.phase = RunPhase::AwaitingDrain;
                assert(self@ =~= (RunView { phase: RunPhase::AwaitingDrain, ..before }));
                assert(target == before.settle(now));
                return ShutdownAction::CheckDrain { component: self.index };
            }
        }
    }

    /// Advances the run by `event` and says what to do next.
    fn step(&mut self, event: ShutdownEvent) -> (action: ShutdownAction)
        requires
            old(self).wf(),
            old(self)@.accepts(event),
        ensures
            final(self).wf(),
            final(self)@.well_formed(),
            (final(self)@, action) == old(self)@.next(event),
    {
        match event {
            ShutdownEvent::Start { now } => {
                let ghost before = self@;
                self.mark = now;
                assert(self@ =~= (RunView { mark: now, ..before }));
                self.settle(now)
            },
            ShutdownEvent::DrainChecked { drained, now } => {
                if drained {
                    let in_time = !now.at_least(&self.deadline);
                    self.conclude(in_time, now);
                    self.settle(now)
                } else {
                    let ghost before = self@;
                    self.phase = RunPhase::Sleeping;
                    assert(self@ =~= (RunView { phase: RunPhase::Sleeping, ..before }));
                    ShutdownAction::Sleep { interval: self.interval }
                }
            },
            ShutdownEvent::Woke { now } => self.settle(now),
        }
    }

    /// The reported checks: one per component in order, then the
    /// aggregate.
    fn into_checks(self) -> (checks: Vec<CheckOutcome>)
        requires
            self.wf(),
            self@.phase == RunPhase::Finished,
        ensures
            checks@.map_values(|c: CheckOutcome| c@) == self@.results,
            checks.len() == self@.results.len(),
            forall|i: int| 0 <= i < checks.len() ==> (#[trigger] checks@[i])@ == self@.results[i],
    {
        let checks = self.results;
        assert(forall|i: int| 0 <= i < checks.len() ==> checks@.map_values(|c: CheckOutcome| c@)[i] == (#[trigger] checks@[i])@);
        checks
    }
}

/// A run of a shutdown probe, always consistent in its current phase.
pub struct ShutdownRun {
    state: RunState,
}

impl View for ShutdownRun {
    type V = RunView;

    closed spec fn view(&self) -> RunView {
        self.state@
    }
}

impl ShutdownRun {
    #[verifier::type_invariant]
    spec fn consistent(&self) -> bool {
        self.state.wf()
    }

    /// Where the run stands.
    pub fn phase(&self) -> (r: RunPhase)
        ensures
            r == self@.phase,
    {
        self.state.phase()
    }

    /// Whether the run waits for `event`.
    pub fn accepts(&self, event: &ShutdownEvent) -> (r: bool)
        ensures
            r == self@.accepts(*event),
    {
        self.state.accepts(event)
    }

    /// Advances the run by `event` and says what to do next.
    pub fn step(&mut self, event: ShutdownEvent) -> (action: ShutdownAction)
        requires
            old(self)@.accepts(event),
        ensures
            final(self)@.well_formed(),
            (final(self)@, action) == old(self)@.next(event),
            action matches ShutdownAction::CheckDrain { component } ==> component as nat
                == final(self)@.index && final(self)@.phase == RunPhase::AwaitingDrain,
    {
        proof {
            use_type_invariant(&*self);
            lemma_drain_check_names_current_component(self@, event);
        }
        let mut state = RunState::idle();
        std::mem::swap(&mut state, &mut self.state);
        let action = state.step(event);
        self.state = state;
        action
    }

    /// The reported checks: one per component in order, then the
    /// aggregate.
    pub fn into_checks(self) -> (checks: Vec<CheckOutcome>)
        requires
            self@.phase == RunPhase::Finished,
        ensures
            checks@.map_values(|c: CheckOutcome| c@) == self@.results,
            checks.len() == self@.results.len(),
            forall|i: int| 0 <= i < checks.len() ==> (#[trigger] checks@[i])@ == self@.results[i],
    {
        proof {
            use_type_invariant(&self);
        }
        let ShutdownRun { state } = self;
        state.into_checks()
    }
}

} // verus!
