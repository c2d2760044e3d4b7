[package]
name = "dev_async"
version = "0.9.5"
edition = "2021"
publish = false

[dependencies]
dev-report = "0.9"
tokio = { version = "1", features = ["rt", "rt-multi-thread", "sync", "time", "macros"] }
pin-project-lite = "0.2"
