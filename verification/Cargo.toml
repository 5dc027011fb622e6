[package]
name = "amm_reserves"
version = "0.1.0"
edition = "2021"
publish = false

[dependencies]
anyhow = "=1.0.104"
raydium_amm = "=0.1.13"
solana-program = "=2.3.0"
solana-rpc-client = { version = "2.3", default-features = false }
spl-token = "=8.0.0"

[dev-dependencies]
borsh = "=1.8.1"
