[package]
name = "chainhook_core"
version = "0.1.0"
edition = "2021"
publish = false

[dependencies]
hex = "=0.4.3"
bitcoincore-rpc-json = "=0.18.0"
miniscript = "=11.0.0"
bitcoin-internals = "=0.2.0"
serde = { version = "=1.0.229", features = ["derive"] }
serde_json = "=1.0.154"
reqwest = { version = "=0.11.27", default-features = false, features = ["stream", "json"] }
redis = "=0.21.8"
tokio = { version = "=1.54.1", features = ["rt-multi-thread", "macros"] }
flate2 = "=1.1.10"
flume = "=0.11.1"
futures-util = "=0.3.34"
crossbeam-channel = "=0.5.17"
