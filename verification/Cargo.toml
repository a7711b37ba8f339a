[package]
name = "evm_rpc_dashboard"
version = "0.1.0"
edition = "2021"
publish = false

[dependencies]
sha3 = "=0.10.9"
serde_json = "=1.0.154"
solana-sdk = "=1.18.26"
console = "=0.15.11"
