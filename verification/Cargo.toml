[package]
name = "transport_async"
version = "0.1.0"
edition = "2021"
publish = false

[dependencies]
bytes = "1"
tokio = { version = "1", features = ["sync", "net", "io-util", "io-std", "process", "rt", "rt-multi-thread", "macros"] }
tokio-util = { version = "0.7", features = ["codec"] }
tokio-serde = { version = "0.9", features = ["bincode", "json", "messagepack", "cbor"] }
tokio-stream = { version = "0.1", features = ["net"] }
futures = "0.3"
futures-util = { version = "0.3", features = ["sink"] }
pin-project = "1"
pin-project-lite = "0.2"
async-stream = "0.3"
quinn = { version = "0.11", default-features = false, features = ["runtime-tokio", "rustls-ring"] }
tipsy = "*"
serde = "1"
