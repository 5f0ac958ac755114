[package]
name = "confidential_token"
version = "0.1.0"
edition = "2021"
publish = false

[dependencies]
bytemuck = { version = "1", features = ["derive"] }
solana-program = "1.18"
solana-zk-token-sdk = "1.18"
