[package]
name = "modsync"
version = "0.1.0"
edition = "2021"
publish = false

[dependencies]
anyhow = "*"
librqbit = "*"
tokio = { version = "*", features = ["sync"] }
