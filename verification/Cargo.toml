[package]
name = "openbolo"
version = "0.1.0"
edition = "2021"
publish = false

[dependencies]
anyhow = "1"
cpal = "0.15"
enigo = "0.2"
parking_lot = "0.12"
serde = { version = "1", features = ["derive"] }
tokio = { version = "1", features = ["sync"] }
