[package]
name = "hyperliquid_ws"
version = "0.1.0"
edition = "2021"
publish = false

[dependencies]
ethers = { version = "2.0.14", default-features = false }
futures-util = "0.3"
log = "0.4"
reqwest = { version = "0.11", default-features = false, features = ["rustls-tls", "json"] }
rmp-serde = "1"
serde = { version = "1", features = ["derive"] }
serde_json = "1"
tokio = { version = "1", features = ["rt", "macros", "sync", "time", "net"] }
tokio-tungstenite = { version = "0.20", features = ["rustls-tls-webpki-roots"] }
uuid = { version = "1", features = ["v4", "serde"] }
