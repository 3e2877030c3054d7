[package]
name = "root_ca"
version = "0.1.0"
edition = "2021"
publish = false

[dependencies]
openssl = "0.10"
tokio = { version = "1", features = ["fs", "macros", "rt-multi-thread"] }
futures-util = "0.3"
tracing = "0.1"
tracing-appender = "0.2"
tracing-subscriber = "0.3"
hyper = { version = "0.14", features = ["server", "http1", "tcp"] }
axum = "0.6"
