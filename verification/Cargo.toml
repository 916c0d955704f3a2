[package]
name = "apalis-rsmq"
version = "0.1.0"
edition = "2021"
publish = false

[dependencies]
apalis-core = { version = "=1.0.0-alpha.9", features = ["json", "sleep", "tracing"] }
rsmq_async = "=18.0.0"
chrono = "=0.4.45"
futures = "=0.3.34"
pin-project-lite = "=0.2.17"
serde = { version = "=1.0.229", features = ["derive"] }
serde_json = "=1.0.154"
tracing = "=0.1.44"
