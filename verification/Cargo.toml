[package]
name = "betting_platform"
version = "0.1.0"
edition = "2021"
publish = false

[dependencies]
borsh = "0.10"
solana-program = "1.18"
spl-token = { version = "4", features = ["no-entrypoint"] }
