[package]
name = "mnot"
version = "0.1.0"
edition = "2021"
publish = false

[dependencies]
anyhow = "1"
matrix-sdk = { version = "0.7", default-features = false, features = ["rustls-tls"] }
serde = { version = "1", features = ["derive"] }
serde_json = "1"
serde_yaml = "0.9"
tokio = { version = "1", features = ["macros", "rt-multi-thread", "time"] }
