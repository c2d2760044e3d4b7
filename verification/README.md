# dev_async

Verdicts for async failure modes: futures that never complete, tasks that
leak or panic, locks that cannot be acquired, shutdowns that never drain,
futures that are not cancellation-safe, and polls that block.

`src/` is the verified library. It decides, from plain observations, what
each check reports: its name, verdict, severity, detail, tags and numeric
evidence. Each decision is a function with an exact contract over the
`CheckView` model in `check.rs`; the shutdown probe is a state machine
(`ShutdownRun::step`) whose every step is specified and whose laws (the
aggregate passes exactly when every component drained; a component is
reported as not drained only past the deadline) are proved.

`app/` runs the tokio side: it awaits futures and handles, takes clock
readings, sleeps, calls drain checks, and converts outcomes into
`dev_report::CheckResult`.

`tests/` exercise the library on concrete observations.
