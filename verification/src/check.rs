//! The outcome of one check: a verdict, its severity, tags and numeric
//! evidence.

use vstd::prelude::*;

verus! {

/// Whether a check passed.
#[derive(Clone, Copy, Debug, PartialEq, Eq, Structural)]
pub enum Verdict {
    /// Nothing to act on.
    Pass,
    /// Action required.
    Fail,
    /// Review recommended.
    Warn,
    /// The check did not exercise what it was meant to.
    Skip,
}

/// How serious a failure or warning is.
#[derive(Clone, Copy, Debug, PartialEq, Eq, Structural)]
pub enum Severity {
    /// Informational.
    Info,
    /// Acceptable with acknowledgement.
    Warning,
    /// Blocks acceptance.
    Error,
    /// Blocks acceptance and signals a regression.
    Critical,
}

/// A labelled whole-number measurement backing a check, such as
/// `timeout_ms` or `leaked`.
#[derive(Debug)]
pub struct Measurement {
    /// What was measured.
    pub label: String,
    /// The measured value.
    pub value: u128,
}

/// The outcome of one check.
#[derive(Debug)]
pub struct CheckOutcome {
    /// Stable identifier of the check, such as `async::login`.
    pub name: String,
    /// The verdict.
    pub verdict: Verdict,
    /// Present for `Fail` and `Warn`, absent for `Pass` and `Skip`.
    pub severity: Option<Severity>,
    /// Human-readable detail.
    pub detail: Option<String>,
    /// How long the checked work took, in milliseconds.
    pub duration_ms: Option<u64>,
    /// Tags for filtering, such as `async`, `timeout`, `regression`.
    pub tags: Vec<String>,
    /// Numeric evidence, in the order it was recorded.
    pub evidence: Vec<Measurement>,
}

/// A check outcome as mathematical values.
#[verifier::ext_equal]
pub struct CheckView {
    pub name: Seq<char>,
    pub verdict: Verdict,
    pub severity: Option<Severity>,
    pub detail: Option<Seq<char>>,
    pub duration_ms: Option<u64>,
    pub tags: Seq<Seq<char>>,
    pub evidence: Seq<(Seq<char>, u128)>,
}

/// The texts of a sequence of strings.
pub open spec fn texts(s: Seq<String>) -> Seq<Seq<char>> {
    s.map_values(|t: String| t@)
}

/// The (label, value) pairs of a sequence of measurements.
pub open spec fn measures(s: Seq<Measurement>) -> Seq<(Seq<char>, u128)> {
    s.map_values(|m: Measurement| (m.label@, m.value))
}

impl View for CheckOutcome {
    type V = CheckView;

    open spec fn view(&self) -> CheckView {
        CheckView {
            name: self.name@,
            verdict: self.verdict,
            severity: self.severity,
            detail: match self.detail {
                Some(d) => Some(d@),
                None => None,
            },
            duration_ms: self.duration_ms,
            tags: texts(self.tags@),
            evidence: measures(self.evidence@),
        }
    }
}

impl CheckView {
    /// The check carries the tag `t`.
    pub open spec fn has_tag(self, t: Seq<char>) -> bool {
        self.tags.contains(t)
    }

    /// The check records `value` under `label`.
    pub open spec fn has_measure(self, label: Seq<char>, value: u128) -> bool {
        self.evidence.contains((label, value))
    }

    /// What every check of this library keeps: it is tagged `async`, it
    /// has a severity exactly when it failed or warned, and a failure is
    /// tagged `regression`.
    pub open spec fn follows_async_contract(self) -> bool {
        &&& self.has_tag("async"@)
        &&& (self.severity is Some <==> (self.verdict == Verdict::Fail || self.verdict
            == Verdict::Warn))
        &&& self.verdict == Verdict::Fail ==> self.has_tag("regression"@)
    }
}

/// Appends the tag `t`.
pub fn push_tag(tags: &mut Vec<String>, t: &str)
    ensures
        texts(final(tags)@) == texts(old(tags)@).push(t@),
{
    tags.push(String::from_str(t));
    assert(texts(final(tags)@) =~= texts(old(tags)@).push(t@));
}

/// Appends the measurement `value` under `label`.
pub fn push_measure(evidence: &mut Vec<Measurement>, label: &str, value: u128)
    ensures
        measures(final(evidence)@) == measures(old(evidence)@).push((label@, value)),
{
    evidence.push(Measurement { label: String::from_str(label), value });
    assert(measures(final(evidence)@) =~= measures(old(evidence)@).push((label@, value)));
}

/// An empty list of tags.
pub fn no_tags() -> (tags: Vec<String>)
    ensures
        texts(tags@) == Seq::<Seq<char>>::empty(),
{
    let tags: Vec<String> = Vec::new();
    assert(texts(tags@) =~= Seq::<Seq<char>>::empty());
    tags
}

/// An empty list of measurements.
pub fn no_measures() -> (evidence: Vec<Measurement>)
    ensures
        measures(evidence@) == Seq::<(Seq<char>, u128)>::empty(),
{
    let evidence: Vec<Measurement> = Vec::new();
    assert(measures(evidence@) =~= Seq::<(Seq<char>, u128)>::empty());
    evidence
}

impl CheckOutcome {
    /// Whether the check carries the tag `tag`.
    pub fn has_tag(&self, tag: &str) -> (r: bool)
        ensures
            r == self@.has_tag(tag@),
    {
        let wanted = String::from_str(tag);
        let mut i: usize = 0;
        while i < self.tags.len()
            invariant
                i <= self.tags.len(),
                wanted@ == tag@,
                forall|j: int| 0 <= j < i ==> texts(self.tags@)[j] != tag@,
            decreases self.tags.len() - i,
        {
            if self.tags[i].eq(&wanted) {
                assert(texts(self.tags@)[i as int] == tag@);
                return true;
            }
            i += 1;
        }
        assert forall|j: int| 0 <= j < texts(self.tags@).len() implies texts(self.tags@)[j] != tag@ by {}
        false
    }
}

} // verus!
