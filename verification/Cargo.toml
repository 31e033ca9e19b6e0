[package]
name = "restaurant"
version = "0.1.0"
edition = "2021"
publish = false

[dependencies]
anyhow = "=1.0.104"
axum = "=0.6.20"
chrono = { version = "=0.4.45", features = ["serde"] }
log = "=0.4.34"
serde = { version = "=1.0.229", features = ["derive"] }
serde_json = "=1.0.151"
simplelog = "=0.12.2"
tokio = { version = "=1.53.2", features = ["full"] }
