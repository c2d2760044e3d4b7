//! Verdicts for async failure modes: hung futures, task leaks, lock
//! starvation, shutdowns that never drain, cancellation-unsafe futures
//! and long non-yielding polls.
//!
//! The library decides, from plain observations (what completed, what
//! timed out, how long it took), which check outcome to report. The
//! runtime plumbing that produces those observations lives outside it.

pub mod span;
pub mod text;
pub mod check;
pub mod shutdown;
pub mod timeout;
pub mod tasks;
pub mod deadlock;
pub mod cancellation_safety;
pub mod blocking;
pub mod harness;

pub use harness::{AsyncCheck, AsyncProducer};
