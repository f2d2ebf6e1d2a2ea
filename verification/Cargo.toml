[package]
name = "ingestion_service"
version = "0.1.0"
edition = "2021"
publish = false

[dependencies]
anyhow = "1"
async-stream = "0.3"
async-trait = "0.1"
axum = "0.7"
blake3 = "1"
csv = "1"
futures = "0.3"
metrics = "0.22"
metrics-exporter-prometheus = { version = "0.13", default-features = false }
once_cell = "1"
serde = { version = "1", features = ["derive"] }
serde_json = "1"
sqlx = { version = "0.7", default-features = false, features = ["runtime-tokio", "postgres", "time", "macros"] }
thiserror = "1"
time = { version = "0.3", features = ["macros", "parsing", "formatting", "serde"] }
tokio = { version = "1", features = ["full"] }
tokio-stream = "0.1"
tokio-util = { version = "0.7", features = ["io"] }
toml = "0.8"
tracing = "0.1"
tracing-subscriber = { version = "0.3", features = ["env-filter", "fmt"] }
