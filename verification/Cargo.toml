[package]
name = "cadence_contract"
version = "0.1.0"
edition = "2021"
publish = false

[dependencies]
governor = { version = "=0.6.3", default-features = false, features = ["std"] }
serde = { version = "=1.0.229", features = ["derive"] }
serde_json = "=1.0.154"
thiserror = "=1.0.69"
chrono = "=0.4.45"
rand = "=0.8.8"
tokio = { version = "=1.54.1", features = ["full"] }
axum = "=0.7.9"
anyhow = "=1.0.104"
reqwest = { version = "=0.12.28", default-features = false }
