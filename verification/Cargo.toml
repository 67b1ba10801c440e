[package]
name = "codex-budget-guard"
version = "0.1.0"
edition = "2021"
publish = false

[dependencies]
conservation-checker = "=0.1.0"
chrono = { version = "=0.4.45", default-features = false, features = ["clock", "std"] }
serde = { version = "=1.0.229", features = ["derive"] }
serde_json = "=1.0.154"
thiserror = "=1.0.69"
