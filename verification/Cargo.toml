[package]
name = "zk_coprocessor_program"
version = "0.1.0"
edition = "2021"
publish = false

[dependencies]
anchor-lang = "0.30.1"
wormhole-anchor-sdk = { version = "0.30.1-alpha.3", default-features = false, features = ["solana-devnet"] }
