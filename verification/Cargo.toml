[package]
name = "intercept-bounce"
version = "0.1.0"
edition = "2021"
publish = false

[dependencies]
humantime = "2"
input-linux-sys = "*"
libc = "0.2"
clap = { version = "4", features = ["derive"] }
tracing = "0.1"
tracing-subscriber = { version = "0.3", features = ["env-filter"] }
crossbeam-channel = "0.5"
chrono = "0.4"
signal-hook = "0.3"
serde = { version = "1", features = ["derive"] }
serde_json = "1"
opentelemetry = { version = "0.22", features = ["metrics"] }
opentelemetry_sdk = { version = "0.22", features = ["metrics", "rt-tokio-current-thread"] }
opentelemetry-otlp = { version = "0.15", features = ["metrics"] }
tracing-opentelemetry = "0.23"
