[package]
name = "onesol_protocol"
version = "0.1.0"
edition = "2021"
publish = false

[dependencies]
num-traits = "0.2"
solana-program = "1.18"
spl-token = { version = "4", features = ["no-entrypoint"] }
