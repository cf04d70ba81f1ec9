[package]
name = "sol_tx_dispacher"
version = "0.1.0"
edition = "2021"
publish = false

[dependencies]
ahash = "=0.8.12"
anyhow = "=1.0.104"
log = "0.4"
tokio = { version = "1", features = ["rt", "macros"] }
solana-sdk = "=5.0.0"
