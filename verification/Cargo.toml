[package]
name = "btcflow"
version = "0.1.0"
edition = "2021"
publish = false

[dependencies]
bitcoincore-rpc = "*"
serde = { version = "*", features = ["derive"] }
serde_json = "*"
