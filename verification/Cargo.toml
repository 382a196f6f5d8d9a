[package]
name = "perpetuals"
version = "0.1.0"
edition = "2021"
publish = false

[dependencies]
anchor-lang = { version = "=1.2.1", features = ["init-if-needed"] }
anchor-spl = { version = "=1.2.1", default-features = false, features = ["token", "solana-v3"] }
pyth-solana-receiver-sdk = "=2.0.0"
solana-security-txt = "=1.1.3"
