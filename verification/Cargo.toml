[package]
name = "solswap"
version = "0.1.0"
edition = "2021"
publish = false

[dependencies]
anchor-lang = "=0.28.0"
anchor-spl = "=0.28.0"
bytemuck = "=1.25.2"
pyth-sdk-solana = "=0.10.6"
switchboard-v2 = "=0.4.0"
