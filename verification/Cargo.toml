[package]
name = "axum-insights"
version = "0.1.0"
edition = "2021"
publish = false

[dependencies]
axum = "0.7"
futures = "0.3"
http = "1"
http-body-util = "0.1"
hyper = "1"
opentelemetry = "0.22"
opentelemetry-application-insights = { version = "0.30", features = ["live-metrics"] }
opentelemetry_sdk = { version = "0.22", features = ["rt-tokio"] }
reqwest = { version = "0.11", default-features = false }
serde = "1"
serde_json = "1"
tokio = { version = "1", features = ["rt", "macros"] }
tower = "0.4"
tracing = "0.1"
tracing-opentelemetry = "0.23"
tracing-subscriber = "0.3"
