[package]
name = "rmqtt"
version = "0.1.0"
edition = "2021"
publish = false

[dependencies]
anyhow = "=1.0.104"
async-trait = "=0.1.92"
futures = "=0.3.34"
log = "=0.4.35"
proxy-protocol = "=0.5.0"
quinn = { version = "=0.11.12", default-features = false, features = ["rustls-ring", "runtime-tokio"] }
rustls = { version = "=0.23.46", default-features = false, features = ["ring", "std", "tls12"] }
serde = { version = "=1.0.229", features = ["derive"] }
serde_json = "=1.0.154"
socket2 = { version = "=0.5.10", features = ["all"] }
tokio = { version = "=1.54.1", features = ["net", "io-util", "sync", "time", "rt", "macros"] }
tokio-rustls = { version = "=0.26.6", default-features = false, features = ["ring", "tls12"] }
tokio-tungstenite = "=0.30.0"
uuid = { version = "=1.29.0", features = ["v4"] }
