[package]
name = "okc_hooks"
version = "0.1.0"
edition = "2021"
publish = false

[dependencies]
serde = { version = "1", features = ["derive"] }
serde_json = "1"
ciborium = "0.2"
thiserror = "2"
url = "2"
arc-swap = "1"
