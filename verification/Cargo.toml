[package]
name = "exc_core"
version = "0.1.0"
edition = "2021"
publish = false

[dependencies]
serde_json = "1"
serde = { version = "1", features = ["derive"] }
http = "0.2"
anyhow = "1"
