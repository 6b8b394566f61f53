[package]
name = "zico_limbo"
version = "0.1.0"
edition = "2021"
publish = false

[dependencies]
serde = { version = "=1.0.229", features = ["derive"] }
tokio = { version = "=1.54.1", features = ["sync", "macros", "time", "rt", "net", "signal"] }
tracing = "=0.1.44"
thiserror = "=2.0.21"
