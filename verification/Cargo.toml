[package]
name = "comelit_hub"
version = "0.1.0"
edition = "2021"
publish = false

[dependencies]
metrics = "0.24"
dashmap = "6"
serde = { version = "1", features = ["derive"] }
serde_json = "1"
tokio = { version = "1", features = ["full"] }
anyhow = "1"
async-trait = "0.1"
tracing = "0.1"
tracing-subscriber = { version = "0.3", features = ["env-filter"] }
tracing-appender = "0.2"
clap = { version = "4", features = ["derive"] }
parking_lot = "0.12"
metrics-exporter-prometheus = { version = "0.16", default-features = false }
axum = "0.8"
minijinja = "2"
