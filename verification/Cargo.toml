[package]
name = "feynman_relay"
version = "0.1.0"
edition = "2021"
publish = false

[dependencies]
anyhow = "1"
axum = { version = "0.8", features = ["ws"] }
base64 = "0.22"
dotenvy = "0.15"
futures-util = "0.3"
rustls = { version = "0.23", default-features = false, features = ["ring", "std", "logging", "tls12"] }
serde_json = "1"
tokio = { version = "1", features = ["full"] }
tokio-tungstenite = "0.27"
