[package]
name = "token_vesting"
version = "0.1.0"
edition = "2021"
publish = false

[dependencies]
solana-program = "2"
spl-token = { version = "6", default-features = false, features = ["no-entrypoint"] }
