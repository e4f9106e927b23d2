[package]
name = "pay_request"
version = "0.1.0"
edition = "2021"
publish = false

[dependencies]
anchor-lang = { version = "=1.2.1", features = ["init-if-needed"] }
anchor-spl = "=1.2.1"
solana-keccak-hasher = { version = "=3.1.0", features = ["sha3"] }
solana-pubkey = { version = "=3.0.0", features = ["curve25519"] }
