//! A length of time with nanosecond resolution, split like
//! `std::time::Duration` into whole seconds and a sub-second part.

use vstd::prelude::*;

verus! {

/// Nanoseconds in one second.
pub const NANOS_PER_SEC: u32 = 1_000_000_000;

/// Nanoseconds in one millisecond.
pub const NANOS_PER_MILLI: u32 = 1_000_000;

/// A non-negative span of time: `secs` whole seconds plus `nanos`
/// nanoseconds, where `nanos` is always below one second.
#[derive(Clone, Copy, Debug, PartialEq, Eq)]
pub struct Span {
    secs: u64,
    nanos: u32,
}

impl Span {
    #[verifier::type_invariant]
    spec fn well_formed(self) -> bool {
        self.nanos < NANOS_PER_SEC
    }

    /// The whole-second part.
    pub closed spec fn spec_secs(self) -> u64 {
        self.secs
    }

    /// The sub-second part, in nanoseconds.
    pub closed spec fn spec_subsec_nanos(self) -> u32 {
        self.nanos
    }

    /// The whole span in nanoseconds.
    pub open spec fn total_nanos(self) -> nat {
        (self.spec_secs() * 1_000_000_000 + self.spec_subsec_nanos()) as nat
    }

    /// The span in whole milliseconds, rounded down.
    pub open spec fn total_millis(self) -> nat {
        self.total_nanos() / 1_000_000
    }

    /// `a - b` for spans, or the empty span where `b` is the longer.
    pub closed spec fn spec_sub(a: Span, b: Span) -> Span {
        if a.total_nanos() < b.total_nanos() {
            Span { secs: 0, nanos: 0 }
        } else if a.nanos >= b.nanos {
            Span { secs: (a.secs - b.secs) as u64, nanos: (a.nanos - b.nanos) as u32 }
        } else {
            Span {
                secs: (a.secs - b.secs - 1) as u64,
                nanos: (1_000_000_000 - b.nanos + a.nanos) as u32,
            }
        }
    }

    /// A span of `secs` seconds and `subsec_nanos` nanoseconds.
    pub fn from_parts(secs: u64, subsec_nanos: u32) -> (s: Span)
        requires
            subsec_nanos < NANOS_PER_SEC,
        ensures
            s.spec_secs() == secs,
            s.spec_subsec_nanos() == subsec_nanos,
    {
        Span { secs, nanos: subsec_nanos }
    }

    /// The empty span.
    pub fn zero() -> (s: Span)
        ensures
            s.spec_secs() == 0,
            s.spec_subsec_nanos() == 0,
    {
        Span { secs: 0, nanos: 0 }
    }

    /// A span of `secs` whole seconds.
    pub fn from_secs(secs: u64) -> (s: Span)
        ensures
            s.spec_secs() == secs,
            s.spec_subsec_nanos() == 0,
            s.total_nanos() == secs * 1_000_000_000,
    {
        Span { secs, nanos: 0 }
    }

    /// A span of `millis` milliseconds.
    pub fn from_millis(millis: u64) -> (s: Span)
        ensures
            s.spec_secs() == millis / 1000,
            s.spec_subsec_nanos() == (millis % 1000) * 1_000_000,
            s.total_nanos() == millis * 1_000_000,
    {
        let secs: u64 = millis / 1000;
        let rest: u64 = millis % 1000;
        assert(rest * 1_000_000 < 1_000_000_000);
        let nanos: u32 = (rest * 1_000_000) as u32;
        Span { secs, nanos }
    }

    /// The whole-second part.
    pub fn as_secs(&self) -> (r: u64)
        ensures
            r == self.spec_secs(),
    {
        self.secs
    }

    /// The sub-second part, in nanoseconds.
    pub fn subsec_nanos(&self) -> (r: u32)
        ensures
            r == self.spec_subsec_nanos(),
            r < NANOS_PER_SEC,
    {
        proof {
            use_type_invariant(self);
        }
        self.nanos
    }

    /// The span in whole milliseconds, rounded down.
    pub fn as_millis(&self) -> (r: u128)
        ensures
            r == self.total_millis(),
    {
        proof {
            use_type_invariant(self);
        }
        let whole: u128 = (self.secs as u128) * 1000;
        let part: u128 = (self.nanos / NANOS_PER_MILLI) as u128;
        assert(self.total_nanos() / 1_000_000 == self.secs * 1000 + self.nanos / 1_000_000)
            by (nonlinear_arith)
            requires
                self.total_nanos() == self.secs * 1_000_000_000 + self.nanos,
        ;
        whole + part
    }

    /// `self >= other`, comparing the spans' lengths.
    pub fn at_least(&self, other: &Span) -> (r: bool)
        ensures
            r == (self.total_nanos() >= other.total_nanos()),
    {
        proof {
            use_type_invariant(self);
            use_type_invariant(other);
        }
        if self.secs != other.secs {
            self.secs > other.secs
        } else {
            self.nanos >= other.nanos
        }
    }

    /// `self - earlier`, or the empty span where `earlier` is the longer.
    pub fn saturating_sub(&self, earlier: &Span) -> (r: Span)
        ensures
            r == Span::spec_sub(*self, *earlier),
            r.total_nanos() == if self.total_nanos() >= earlier.total_nanos() {
                self.total_nanos() - earlier.total_nanos()
            } else {
                0
            },
    {
        proof {
            use_type_invariant(self);
            use_type_invariant(earlier);
        }
        if !self.at_least(earlier) {
            return Span { secs: 0, nanos: 0 };
        }
        if self.nanos >= earlier.nanos {
            Span { secs: self.secs - earlier.secs, nanos: self.nanos - earlier.nanos }
        } else {
            Span {
                secs: self.secs - earlier.secs - 1,
                nanos: NANOS_PER_SEC - earlier.nanos + self.nanos,
            }
        }
    }
}

} // verus!
