[package]
name = "relay_confirm"
version = "0.1.0"
edition = "2021"
publish = false

[dependencies]
anyhow = "1"
reqwest = { version = "0.12", default-features = false, features = ["json"] }
serde_json = "1"
solana-sdk = "2"
tokio = { version = "1", features = ["rt", "macros", "time", "net"] }
