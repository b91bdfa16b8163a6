[package]
name = "tariff_perp"
version = "0.1.0"
edition = "2021"
publish = false

[dependencies]
anchor-lang = { version = "=0.29.0", features = ["init-if-needed"] }
anchor-spl = { version = "=0.29.0", default-features = false, features = ["token", "associated_token"] }
bytemuck = { version = "=1.25.2", features = ["extern_crate_alloc"] }
pyth-sdk = "=0.8.0"
pyth-sdk-solana = "=0.8.0"
spl-memo = "=4.0.0"
spl-token = "=4.0.0"
