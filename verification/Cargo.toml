[package]
name = "comp_memo"
version = "0.1.0"
edition = "2021"
publish = false

[dependencies]
anchor-lang = "0.29.0"
borsh = "0.10"
light-hasher = "1"
light-sdk = "0.11"
solana-account-info = "2"
solana-msg = "2"
solana-program-entrypoint = "2"
solana-program-error = "2"
solana-pubkey = "2"
