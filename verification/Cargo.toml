[package]
name = "instruction_builder"
version = "0.1.0"
edition = "2021"
publish = false

[dependencies]
bs58 = "*"
base64 = "*"
serde = { version = "*", features = ["derive"] }
solana-sdk = "*"
spl-token = "*"
actix-web = "*"
