[package]
name = "jmap_ws"
version = "0.1.0"
edition = "2021"
publish = false

[dependencies]
ahash = { version = "0.8", features = ["serde"] }
async-stream = "0.3"
futures-util = { version = "0.3", features = ["sink"] }
parking_lot = "0.12"
rustls = { version = "0.23", default-features = false, features = ["std", "tls12", "ring"] }
rustls-pki-types = "1"
serde = { version = "1", features = ["derive"] }
serde_json = "1"
tokio = { version = "1", features = ["macros", "net", "rt", "sync", "time"] }
tokio-tungstenite = { version = "*", features = ["rustls-tls-webpki-roots"] }
