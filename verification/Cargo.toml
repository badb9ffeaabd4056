[package]
name = "hyperion_adco"
version = "0.1.0"
edition = "2021"
publish = false

[dependencies]
anyhow = "=1.0.104"
async-trait = "=0.1.92"
base64 = "=0.22.1"
chrono = { version = "=0.4.45", features = ["serde"] }
dotenvy = "=0.15.7"
futures-util = "=0.3.34"
hmac = "=0.12.1"
parking_lot = "=0.12.5"
pyo3 = "=0.22.6"
redis = { version = "=0.25.5", features = ["tokio-comp"] }
reqwest = { version = "=0.12.28", default-features = false, features = ["json", "rustls-tls"] }
serde = { version = "=1.0.229", features = ["derive"] }
serde_json = "=1.0.154"
sha2 = "=0.10.9"
tokio = { version = "=1.54.1", features = ["full"] }
tokio-tungstenite = { version = "=0.23.1", features = ["rustls-tls-webpki-roots"] }
