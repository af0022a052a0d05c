[package]
name = "durable_nonce"
version = "0.1.0"
edition = "2021"
publish = false

[dependencies]
litesvm = "=0.3.0"
solana-sdk = "=2.0.25"

[dev-dependencies]
bincode = "=1.3.3"
