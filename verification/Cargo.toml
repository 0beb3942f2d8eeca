[package]
name = "jupiter_phoenix"
version = "0.1.0"
edition = "2021"
publish = false

[dependencies]
anyhow = "=1.0.104"
phoenix-v1 = "=0.2.4"
solana-program = "=1.14.9"
solana-sdk = { version = "=1.14.9", default-features = false }
spl-token = { version = "=3.5.0", features = ["no-entrypoint"] }

[dev-dependencies]
bytemuck = "=1.13.0"
lib-sokoban = "=0.3.0"
