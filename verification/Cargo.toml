[package]
name = "pole"
version = "0.1.0"
edition = "2021"
publish = false

[dependencies]
solana-maths = "=0.1.2"
port-variable-rate-lending-instructions = "=0.3.0"
port-staking-instructions = "=0.1.7"
anchor-lang = "=0.30.1"
anchor-spl = { version = "=0.30.1", features = ["dex"] }
