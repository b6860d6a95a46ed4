[package]
name = "packurl"
version = "0.1.0"
edition = "2021"
publish = false

[dependencies]
base64 = "0.13"
ring = "0.16"
pem = "1"
rcgen = "0.9"
rustls = "0.20"
tokio = { version = "1", features = ["rt-multi-thread", "macros", "net", "io-util", "time", "fs", "sync"] }
tokio-rustls = "0.23"
reqwest = { version = "0.11", default-features = false, features = ["json", "rustls-tls"] }
serde = { version = "1", features = ["derive"] }
serde_json = "1"
dashmap = "5"
lazy_static = "1"
colored = "2"
