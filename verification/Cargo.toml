[package]
name = "marginfi"
version = "0.1.0"
edition = "2021"
publish = false

[dependencies]
fixed = "=1.31.0"
bytemuck = "=1.25.2"
anchor-lang = "=1.2.1"
anchor-spl = "=1.2.1"
pyth-sdk-solana = "=0.9.0"
