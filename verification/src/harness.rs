//! Traits for harnesses whose checks or reports come out of a future.

use vstd::prelude::*;

verus! {

/// A finished report of the `dev-report` crate; opaque here.
#[verifier::external_type_specification]
#[verifier::external_body]
pub struct ExReport(dev_report::Report);

/// Any async harness that produces a verdict through a future.
pub trait AsyncCheck {
    /// What the check produces, typically a check outcome.
    type Output;

    /// The future that `run` returns.
    type Fut: core::future::Future<Output = Self::Output>;

    /// Runs the check.
    fn run(self) -> Self::Fut;
}

/// An async harness that builds a whole report.
pub trait AsyncProducer {
    /// The future that `produce` returns.
    type Fut: core::future::Future<Output = dev_report::Report>;

    /// Runs the producer; the future yields the finished report.
    fn produce(self) -> Self::Fut;
}

} // verus!
