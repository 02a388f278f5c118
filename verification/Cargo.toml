[package]
name = "music-transfer"
version = "0.1.0"
edition = "2021"
publish = false

[dependencies]
anyhow = "=1.0.104"
cfg-if = "=1.0.5"
clap = { version = "=3.2.25", features = ["derive"] }
env_logger = "=0.9.3"
log = "=0.4.34"
rspotify = { version = "0.12", default-features = false, features = ["cli", "client-reqwest", "reqwest-rustls-tls"] }
serde = { version = "=1.0.229", features = ["derive"] }
serde_json = "=1.0.154"
tokio = { version = "=1.54.1", features = ["full"] }
