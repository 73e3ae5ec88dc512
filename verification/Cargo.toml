[package]
name = "frikadellen_baf"
version = "0.1.0"
edition = "2021"
publish = false

[dependencies]
anyhow = "1"
axum = { version = "0.8", default-features = false, features = ["http1", "json", "tokio"] }
azalea = "0.15"
azalea-client = "0.15"
azalea-inventory = "0.15"
azalea-protocol = "0.15"
bevy_app = { version = "0.18", default-features = false }
chrono = "0.4"
dialoguer = { version = "0.11", default-features = false }
parking_lot = "0.12"
serde = { version = "1", features = ["derive"] }
serde_json = "1"
tokio = { version = "1", features = ["full"] }
toml = "0.8"
tracing = "0.1"
uuid = { version = "1", features = ["v4"] }
