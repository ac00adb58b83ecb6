[package]
name = "voting_system"
version = "0.1.0"
edition = "2021"
publish = false

[dependencies]
hex = "0.4"
bs58 = "0.4"
solana-program = "1.18"
