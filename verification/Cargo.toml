[package]
name = "faucet"
version = "0.1.0"
edition = "2021"
publish = false

[dependencies]
anyhow = "1"
near-crypto = "0.20"
near-jsonrpc-client = "0.8"
near-jsonrpc-primitives = "0.20"
near-primitives = "0.20"
serde = { version = "1", features = ["derive"] }
serde_json = "1"
tokio = { version = "1", features = ["macros", "rt-multi-thread", "time"] }
