[package]
name = "drift_stake_voter"
version = "0.1.0"
edition = "2021"
publish = false

[dependencies]
anchor-lang = "=0.30.1"
anchor-spl = { version = "=0.30.1", default-features = false, features = ["token"] }
solana-sdk = "=1.18.26"
spl-governance = { version = "=4.0.0", features = ["no-entrypoint"] }
