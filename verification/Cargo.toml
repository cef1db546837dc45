[package]
name = "symbolicator-service"
version = "0.7.0"
edition = "2021"
publish = false

[dependencies]
futures = "0.3"
reqwest = { version = "0.11", default-features = false, features = ["stream"] }
sentry = { version = "0.29", default-features = false }
tempfile = "3"
tokio = { version = "1", features = ["fs", "io-util", "rt", "time"] }
tracing = "0.1"

[dev-dependencies]
symbolic = { version = "10", default-features = false }
