[package]
name = "glados_audit"
version = "0.1.0"
edition = "2021"
publish = false

[dependencies]
anyhow = "=1.0.104"
axum = { version = "=0.6.20", default-features = false, features = ["http1", "tokio"] }
ethereum-types = "=0.14.1"
ethportal-api = "=0.1.6"
hex = "=0.4.3"
sea-orm = { version = "=0.10.7", default-features = false, features = ["macros", "with-chrono"] }
serde_json = "=1.0.154"
tokio = { version = "=1.54.1", features = ["macros", "rt-multi-thread", "signal", "sync", "time"] }
tracing = "=0.1.44"
