[package]
name = "peer_protocol"
version = "0.1.0"
edition = "2021"
publish = false

[dependencies]
slab = "=0.4.12"
tokio = { version = "=1.54.1", features = ["sync", "fs", "io-util"] }
