[package]
name = "eclipse_warmup"
version = "0.1.0"
edition = "2021"
publish = false

[dependencies]
rand = "0.8"
fake = "3"
solana-sdk = "~2.1"
tokio = { version = "1", features = ["full"] }
eyre = "0.6"
tracing = "0.1"
