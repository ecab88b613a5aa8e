[package]
name = "tokio_bincode"
version = "0.1.0"
edition = "2021"
publish = false

[dependencies]
bincode = "1.3"
bytes = "1"
serde = "1"
tokio-util = { version = "0.7", features = ["codec"] }
