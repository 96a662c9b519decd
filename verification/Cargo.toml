[package]
name = "fluss_gateway"
version = "0.1.0"
edition = "2021"
publish = false

[dependencies]
base64 = "=0.22.1"
sha2 = "=0.10.9"
serde = { version = "=1.0.229", features = ["derive"] }
serde_json = "=1.0.154"
toml = "=0.8.23"
axum = "=0.8.9"
tokio = { version = "=1.54.1", features = ["full"] }
clap = { version = "=4.6.7", features = ["derive"] }
tracing = "=0.1.44"
tracing-subscriber = { version = "=0.3.23", features = ["env-filter"] }
anyhow = "=1.0.104"
thiserror = "=2.0.21"
chrono = "=0.4.45"
moka = { version = "=0.12.16", features = ["future"] }
metrics = "=0.24.6"
metrics-exporter-prometheus = { version = "=0.16.2", default-features = false }
utoipa = "=5.5.0"
utoipa-swagger-ui = { version = "=9.0.2", features = ["axum", "vendored"] }
fluss-rs = "=1.0.0"
arrow = "=59.3.2"
