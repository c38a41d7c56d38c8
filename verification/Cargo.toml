[package]
name = "chaser_resolverr"
version = "0.1.0"
edition = "2021"
publish = false

[dependencies]
anyhow = "1"
axum = "0.8"
chaser-oxide = "*"
chrono = { version = "0.4", features = ["serde"] }
futures = "0.3"
log = "0.4"
metrics = "*"
metrics-exporter-prometheus = { version = "*", default-features = false }
rand = "0.9"
serde = { version = "1", features = ["derive"] }
serde_json = "1"
thiserror = "2"
tokio = { version = "1", features = ["rt-multi-thread", "macros", "sync", "time", "net", "signal"] }
tracing = "0.1"
tracing-subscriber = { version = "0.3", features = ["env-filter"] }
ua_generator = "*"
url = "2"
uuid = { version = "1", features = ["v4"] }
